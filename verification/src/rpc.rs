//! Calls of the service, and its answers.

use crate::json;
use crate::json::Json;
use vstd::prelude::*;
use vstd::string::*;

verus! {

/// A call of the service.
#[derive(Debug, PartialEq, Eq)]
pub struct JsonRpcRequest {
    pub jsonrpc: String,
    pub id: Option<Json>,
    pub method: String,
    pub params: Option<Json>,
}

/// Why a call was refused.
#[derive(Debug, PartialEq, Eq)]
pub struct JsonRpcError {
    pub code: i64,
    pub message: String,
}

/// The answer to a call.
#[derive(Debug, PartialEq, Eq)]
pub struct JsonRpcResponse {
    pub result: Option<Json>,
    pub error: Option<JsonRpcError>,
}

/// The request is a call of a method, under the number that every call has.
pub open spec fn is_call(request: JsonRpcRequest, method: Seq<char>, params: json::JsonView) -> bool {
    &&& request.jsonrpc@ == "2.0"@
    &&& request.id matches Some(id)
    &&& id@ == json::JsonView::Uint(1)
    &&& request.method@ == method
    &&& request.params matches Some(given)
    &&& given@ == params
}

/// The call of a method.
pub fn rpc_call(method: &str, params: Json) -> (request: JsonRpcRequest)
    ensures
        is_call(request, method@, params@),
{
    JsonRpcRequest {
        jsonrpc: "2.0".to_owned(),
        id: Some(Json::Uint(1)),
        method: method.to_owned(),
        params: Some(params),
    }
}

} // verus!
