//! The MCP server: which methods and tools there are, what each does, and what
//! is answered.

use crate::json::{write_pretty, Json};
use crate::rpc::{rpc_call, JsonRpcRequest, JsonRpcResponse};
use crate::{json, rpc, text};
use vstd::prelude::*;
use vstd::string::*;

verus! {

/// Why a request gave no result.
#[derive(Debug, PartialEq, Eq)]
pub enum McpError {
    UnknownMethod(String),
    UnknownTool(String),
    InvalidToolArguments,
    /// What the service, the workspace, a document or the host said.
    Service(String),
    Workspace(String),
    Json(String),
    Io(String),
}

/// The text of an error.
pub open spec fn mcp_error_text(error: McpError) -> Seq<char> {
    match error {
        McpError::UnknownMethod(method) => "unknown MCP method `"@ + method@ + "`"@,
        McpError::UnknownTool(tool) => "unknown DbgAtlas tool `"@ + tool@ + "`"@,
        McpError::InvalidToolArguments => "tool arguments must be a JSON object"@,
        McpError::Service(reason) => reason@,
        McpError::Workspace(reason) => reason@,
        McpError::Json(reason) => reason@,
        McpError::Io(reason) => reason@,
    }
}

impl McpError {
    /// The error as text.
    pub fn message(&self) -> (message: String)
        ensures
            message@ == mcp_error_text(*self),
    {
        match self {
            McpError::UnknownMethod(method) => "unknown MCP method `".to_owned().concat(
                method.as_str(),
            ).concat("`"),
            McpError::UnknownTool(tool) => "unknown DbgAtlas tool `".to_owned().concat(
                tool.as_str(),
            ).concat("`"),
            McpError::InvalidToolArguments => "tool arguments must be a JSON object".to_owned(),
            McpError::Service(reason) => reason.clone(),
            McpError::Workspace(reason) => reason.clone(),
            McpError::Json(reason) => reason.clone(),
            McpError::Io(reason) => reason.clone(),
        }
    }
}

/// A request to the server.
#[derive(Debug, PartialEq, Eq)]
pub struct McpRequest {
    pub jsonrpc: String,
    pub id: Option<Json>,
    pub method: String,
    pub params: Option<Json>,
}

/// An error, as a client sees it.
#[derive(Debug, PartialEq, Eq)]
pub struct McpErrorObject {
    pub code: i64,
    pub message: String,
}

/// An answer of the server.
#[derive(Debug, PartialEq, Eq)]
pub struct McpResponse {
    pub jsonrpc: String,
    pub id: Option<Json>,
    pub result: Option<Json>,
    pub error: Option<McpErrorObject>,
}

impl McpResponse {
    fn result(id: Option<Json>, result: Json) -> (response: Self)
        ensures
            response.jsonrpc@ == "2.0"@,
            response.id == id,
            response.result == Some(result),
            response.error is None,
    {
        McpResponse { jsonrpc: "2.0".to_owned(), id, result: Some(result), error: None }
    }

    fn error(id: Option<Json>, error: McpErrorObject) -> (response: Self)
        ensures
            response.jsonrpc@ == "2.0"@,
            response.id == id,
            response.result is None,
            response.error == Some(error),
    {
        McpResponse { jsonrpc: "2.0".to_owned(), id, result: None, error: Some(error) }
    }
}

fn mcp_error_for(error: McpError) -> (object: McpErrorObject)
    ensures
        object.code == -32000,
        object.message@ == mcp_error_text(error),
{
    McpErrorObject { code: -32000, message: error.message() }
}

/// A tool that is called: its name, and its arguments, where there are any.
#[derive(Debug, PartialEq, Eq)]
pub struct ToolCallParams {
    pub name: String,
    pub arguments: Option<Json>,
}

/// What a tool gave, and whether that is an error.
#[derive(Debug, PartialEq, Eq)]
pub struct ToolCallOutput {
    pub value: Json,
    pub is_error: bool,
}

/// What a request leads to.
#[derive(Debug, PartialEq, Eq)]
pub enum RequestStep {
    /// This is answered, where there is an answer.
    Done(Option<McpResponse>),
    /// The tool that the parameters name is called; what it gives is then
    /// answered under the identifier.
    CallTool { id: Option<Json>, params: Json },
}

/// What a tool does.
#[derive(Debug, PartialEq, Eq)]
pub enum ToolStep {
    /// It calls the service.
    CallService(JsonRpcRequest),
    /// It reads everything that the logs of a workspace say.
    ReadFacts { arguments: Json },
    /// It is refused.
    Refuse(McpError),
}

/// The server, in front of a service.
#[derive(Debug)]
pub struct McpServer<H> {
    pub host: H,
}

/// The tools that the service has.
pub open spec fn is_service_tool(name: Seq<char>) -> bool {
    ||| name == "service.health"@
    ||| name == "service.info"@
    ||| name == "operation.get"@
    ||| name == "operation.cancel"@
    ||| name == "operation.stream"@
    ||| name == "debug.session.create"@
    ||| name == "debug.session.close"@
    ||| name == "debug.session.kill"@
    ||| name == "debug.eval"@
    ||| name == "debug.modules"@
    ||| name == "debug.threads"@
    ||| name == "debug.stack"@
    ||| name == "debug.add_symbols"@
    ||| name == "debug.read_memory"@
}

fn service_tool(name: &str) -> (yes: bool)
    ensures
        yes == is_service_tool(name@),
{
    text::text_eq(name, "service.health") || text::text_eq(name, "service.info") || text::text_eq(
        name,
        "operation.get",
    ) || text::text_eq(name, "operation.cancel") || text::text_eq(name, "operation.stream")
        || text::text_eq(name, "debug.session.create") || text::text_eq(
        name,
        "debug.session.close",
    ) || text::text_eq(name, "debug.session.kill") || text::text_eq(name, "debug.eval")
        || text::text_eq(name, "debug.modules") || text::text_eq(name, "debug.threads")
        || text::text_eq(name, "debug.stack") || text::text_eq(name, "debug.add_symbols")
        || text::text_eq(name, "debug.read_memory")
}

/// What a tool does with its arguments.
pub open spec fn tool_does(name: Seq<char>, arguments: Json, step: ToolStep) -> bool {
    if is_service_tool(name) {
        if arguments@ is Object {
            step matches ToolStep::CallService(request) && rpc::is_call(request, name, arguments@)
        } else {
            step == ToolStep::Refuse(McpError::InvalidToolArguments)
        }
    } else if name == "workspace.facts"@ {
        step == ToolStep::ReadFacts { arguments }
    } else {
        step matches ToolStep::Refuse(McpError::UnknownTool(unknown)) && unknown@ == name
    }
}

/// The answer to `initialize`.
pub open spec fn initialize_result() -> json::JsonView {
    json::JsonView::Object(
        seq![
            ("protocolVersion"@, json::JsonView::Text("2024-11-05"@)),
            (
                "serverInfo"@,
                json::JsonView::Object(
                    seq![
                        ("name"@, json::JsonView::Text("dbgatlas-mcp"@)),
                        ("version"@, json::JsonView::Text("0.1.0"@)),
                    ],
                ),
            ),
            (
                "capabilities"@,
                json::JsonView::Object(seq![("tools"@, json::JsonView::Object(seq![]))]),
            ),
        ],
    )
}

/// What a request comes to, as contracts speak of it: a result, or the text of
/// an error.
pub enum OutcomeView {
    Result(json::JsonView),
    Error(Seq<char>),
}

/// What a request comes to.
pub open spec fn outcome_view(outcome: Result<Json, McpError>) -> OutcomeView {
    match outcome {
        Ok(result) => OutcomeView::Result(result@),
        Err(error) => OutcomeView::Error(mcp_error_text(error)),
    }
}

/// What is answered. A request without an identifier is not answered.
pub open spec fn answers(
    id: Option<Json>,
    outcome: OutcomeView,
    response: Option<McpResponse>,
) -> bool {
    match (id, response) {
        (None, None) => true,
        (Some(asked), Some(answer)) => {
            &&& answer.jsonrpc@ == "2.0"@
            &&& answer.id == Some(asked)
            &&& match outcome {
                OutcomeView::Result(view) => {
                    &&& answer.error is None
                    &&& answer.result matches Some(result)
                    &&& result@ == view
                },
                OutcomeView::Error(text) => {
                    &&& answer.result is None
                    &&& answer.error matches Some(object)
                    &&& object.code == -32000
                    &&& object.message@ == text
                },
            }
        },
        _ => false,
    }
}

/// What a method that calls no tool comes to.
pub open spec fn method_outcome(method: Seq<char>) -> OutcomeView {
    if method == "initialize"@ {
        OutcomeView::Result(initialize_result())
    } else if method == "notifications/initialized"@ {
        OutcomeView::Result(json::JsonView::Null)
    } else if method == "tools/list"@ {
        OutcomeView::Result(
            json::JsonView::Object(seq![("tools"@, json::JsonView::Array(tool_list()))]),
        )
    } else {
        OutcomeView::Error("unknown MCP method `"@ + method + "`"@)
    }
}

/// What a request leads to.
pub open spec fn request_does(request: McpRequest, step: RequestStep) -> bool {
    if request.method@ == "tools/call"@ {
        step matches RequestStep::CallTool { id, params } && id == request.id
            && match request.params {
            Some(given) => params == given,
            None => params@ == json::JsonView::Object(seq![]),
        }
    } else {
        step matches RequestStep::Done(response) && answers(
            request.id,
            method_outcome(request.method@),
            response,
        )
    }
}

/// The answer to a tool that was called, once its value was written as a text.
pub open spec fn tool_answer(written: Seq<char>, is_error: bool) -> json::JsonView {
    json::JsonView::Object(
        seq![
            (
                "content"@,
                json::JsonView::Array(
                    seq![
                        json::JsonView::Object(
                            seq![
                                ("type"@, json::JsonView::Text("text"@)),
                                ("text"@, json::JsonView::Text(written)),
                            ],
                        ),
                    ],
                ),
            ),
            ("isError"@, json::JsonView::Bool(is_error)),
        ],
    )
}

/// The answer to a tool that was called, once its value was written as a text.
pub fn tool_reply(written: Result<String, String>, is_error: bool) -> (reply: Result<Json, McpError>)
    ensures
        match written {
            Ok(text) => reply matches Ok(document) && document@ == tool_answer(text@, is_error),
            Err(reason) => reply == Err::<Json, McpError>(McpError::Json(reason)),
        },
{
    let text: String = match written {
        Ok(text) => text,
        Err(reason) => return Err(McpError::Json(reason)),
    };
    let entry: Json = Json::object2("type", Json::text("text"), "text", Json::Text(text));
    let content: Json = Json::array(vec![entry]);
    assert(content@->Array_0 =~= seq![entry@]);
    Ok(Json::object2("content", content, "isError", Json::Bool(is_error)))
}

/// What a call of a tool comes to.
pub open spec fn call_outcome(output: Result<ToolCallOutput, McpError>) -> OutcomeView {
    match output {
        Err(error) => OutcomeView::Error(mcp_error_text(error)),
        Ok(given) => match json::pretty_text(given.value@) {
            Ok(text) => OutcomeView::Result(tool_answer(text, given.is_error)),
            Err(reason) => OutcomeView::Error(reason),
        },
    }
}

/// What is answered to the call of a tool, once the tool gave something.
pub fn finish_tool_call(
    id: Option<Json>,
    output: Result<ToolCallOutput, McpError>,
) -> (response: Option<McpResponse>)
    ensures
        answers(id, call_outcome(output), response),
{
    match output {
        Err(error) => respond(id, Err(error)),
        Ok(given) => respond(id, tool_reply(write_pretty(&given.value), given.is_error)),
    }
}

/// What a refusal of the service is told as.
pub open spec fn refusal_value(code: i64, message: Seq<char>) -> json::JsonView {
    json::JsonView::Object(
        seq![
            (
                "error"@,
                json::JsonView::Object(
                    seq![
                        ("code"@, json::number(code as int)),
                        ("message"@, json::JsonView::Text(message)),
                    ],
                ),
            ),
        ],
    )
}

/// What a tool gave, from what the service answered. A refusal of the service
/// is a value that is marked as an error.
pub fn service_response_result(response: JsonRpcResponse) -> (output: ToolCallOutput)
    ensures
        match response.error {
            Some(error) => output.is_error && output.value@ == refusal_value(
                error.code,
                error.message@,
            ),
            None => !output.is_error && match response.result {
                Some(result) => output.value == result,
                None => output.value@ == json::JsonView::Null,
            },
        },
{
    if let Some(error) = response.error {
        let told: Json = Json::object2(
            "code",
            Json::number(error.code),
            "message",
            Json::Text(error.message),
        );
        return ToolCallOutput { value: Json::object1("error", told), is_error: true };
    }
    match response.result {
        Some(result) => ToolCallOutput { value: result, is_error: false },
        None => ToolCallOutput { value: Json::Null, is_error: false },
    }
}

/// What is answered to a request that came to an outcome.
pub fn respond(id: Option<Json>, outcome: Result<Json, McpError>) -> (response: Option<McpResponse>)
    ensures
        answers(id, outcome_view(outcome), response),
{
    if id.is_none() {
        return None;
    }
    match outcome {
        Ok(result) => Some(McpResponse::result(id, result)),
        Err(error) => Some(McpResponse::error(id, mcp_error_for(error))),
    }
}

/// The answer to `initialize`.
fn initialize() -> (result: Json)
    ensures
        result@ == initialize_result(),
{
    let info: Json = Json::object2(
        "name",
        Json::text("dbgatlas-mcp"),
        "version",
        Json::text("0.1.0"),
    );
    Json::object3(
        "protocolVersion",
        Json::text("2024-11-05"),
        "serverInfo",
        info,
        "capabilities",
        Json::object1("tools", Json::empty_object()),
    )
}

/// What a method that calls no tool comes to.
fn handle_method(method: String) -> (outcome: Result<Json, McpError>)
    ensures
        outcome_view(outcome) == method_outcome(method@),
{
    if text::text_eq(method.as_str(), "initialize") {
        return Ok(initialize());
    }
    if text::text_eq(method.as_str(), "notifications/initialized") {
        return Ok(Json::Null);
    }
    if text::text_eq(method.as_str(), "tools/list") {
        return Ok(Json::object1("tools", Json::array(tool_descriptors())));
    }
    Err(McpError::UnknownMethod(method))
}

impl<H> McpServer<H> {
    /// A server in front of a service.
    pub fn with_host(host: H) -> (server: Self)
        ensures
            server.host == host,
    {
        McpServer { host }
    }

    /// A server in front of a service that runs its workers as processes.
    /// `started` is what starting the service gave.
    pub fn with_process_workers(started: Result<H, String>) -> (server: Result<Self, McpError>)
        ensures
            match started {
                Ok(host) => server matches Ok(made) && made.host == host,
                Err(reason) => server == Err::<Self, McpError>(McpError::Service(reason)),
            },
    {
        match started {
            Ok(host) => Ok(McpServer { host }),
            Err(reason) => Err(McpError::Service(reason)),
        }
    }

    /// What a request leads to. The method of a request without an identifier
    /// is carried out all the same.
    pub fn handle_request(&self, request: McpRequest) -> (step: RequestStep)
        ensures
            request_does(request, step),
    {
        if text::text_eq(request.method.as_str(), "tools/call") {
            let params: Json = match request.params {
                Some(params) => params,
                None => Json::empty_object(),
            };
            return RequestStep::CallTool { id: request.id, params };
        }
        RequestStep::Done(respond(request.id, handle_method(request.method)))
    }

    /// What a tool does with its arguments.
    pub fn call_tool(&self, name: &str, arguments: Json) -> (step: ToolStep)
        ensures
            tool_does(name@, arguments, step),
    {
        if service_tool(name) {
            if !arguments.is_object() {
                return ToolStep::Refuse(McpError::InvalidToolArguments);
            }
            return ToolStep::CallService(rpc_call(name, arguments));
        }
        if text::text_eq(name, "workspace.facts") {
            return ToolStep::ReadFacts { arguments };
        }
        ToolStep::Refuse(McpError::UnknownTool(name.to_owned()))
    }

    /// What the tool of a call does. `params` is what the parameters of the
    /// call name; without arguments it gets an empty object.
    pub fn call_named_tool(&self, params: Result<ToolCallParams, String>) -> (step: ToolStep)
        ensures
            match params {
                Err(reason) => step == ToolStep::Refuse(McpError::Json(reason)),
                Ok(given) => match given.arguments {
                    Some(arguments) => tool_does(given.name@, arguments, step),
                    None => exists|arguments: Json|
                        #![trigger tool_does(given.name@, arguments, step)]
                        arguments@ == json::JsonView::Object(seq![]) && tool_does(
                            given.name@,
                            arguments,
                            step,
                        ),
                },
            },
    {
        match params {
            Err(reason) => ToolStep::Refuse(McpError::Json(reason)),
            Ok(given) => match given.arguments {
                Some(arguments) => self.call_tool(given.name.as_str(), arguments),
                None => self.call_tool(given.name.as_str(), Json::empty_object()),
            },
        }
    }
}

/// The schema of a value of a type.
pub open spec fn typed(name: Seq<char>) -> json::JsonView {
    json::JsonView::Object(seq![("type"@, json::JsonView::Text(name))])
}

/// Texts, as documents.
pub open spec fn text_items(names: Seq<Seq<char>>) -> Seq<json::JsonView> {
    names.map_values(|name: Seq<char>| json::JsonView::Text(name))
}

/// The schema of an object.
pub open spec fn object_schema(
    properties: Seq<(Seq<char>, json::JsonView)>,
    required: Seq<Seq<char>>,
) -> json::JsonView {
    json::JsonView::Object(
        seq![
            ("type"@, json::JsonView::Text("object"@)),
            ("properties"@, json::JsonView::Object(properties)),
            ("required"@, json::JsonView::Array(text_items(required))),
        ],
    )
}

/// The schema of arguments that name a session.
pub open spec fn session_arguments() -> json::JsonView {
    object_schema(seq![("session_id"@, typed("object"@))], seq!["session_id"@])
}

/// The schema of arguments that name an operation.
pub open spec fn operation_arguments() -> json::JsonView {
    object_schema(seq![("operation_id"@, typed("object"@))], seq!["operation_id"@])
}

/// A tool, as a client sees it.
pub open spec fn tool_entry(
    name: Seq<char>,
    description: Seq<char>,
    schema: json::JsonView,
) -> json::JsonView {
    json::JsonView::Object(
        seq![
            ("name"@, json::JsonView::Text(name)),
            ("description"@, json::JsonView::Text(description)),
            ("inputSchema"@, schema),
        ],
    )
}

/// The names of the tools, in the order in which they are listed.
pub open spec fn tool_names() -> Seq<Seq<char>> {
    seq![
        "service.health"@,
        "service.info"@,
        "debug.session.create"@,
        "debug.eval"@,
        "debug.modules"@,
        "debug.threads"@,
        "debug.stack"@,
        "debug.add_symbols"@,
        "debug.read_memory"@,
        "debug.session.close"@,
        "debug.session.kill"@,
        "operation.get"@,
        "operation.cancel"@,
        "operation.stream"@,
        "workspace.facts"@,
    ]
}

/// The tools, as a client sees them.
pub open spec fn tool_list() -> Seq<json::JsonView> {
    seq![
        tool_entry(
            "service.health"@,
            "Return DbgAtlas service health."@,
            json::JsonView::Object(seq![]),
        ),
        tool_entry(
            "service.info"@,
            "Return DbgAtlas service information."@,
            json::JsonView::Object(seq![]),
        ),
        tool_entry(
            "debug.session.create"@,
            "Create a debug session from a dump or attach target."@,
            object_schema(
                seq![("project_root"@, typed("string"@)), ("target"@, typed("object"@))],
                seq!["project_root"@, "target"@],
            ),
        ),
        tool_entry(
            "debug.eval"@,
            "Execute a raw WinDbg command in an existing session."@,
            object_schema(
                seq![("session_id"@, typed("object"@)), ("command"@, typed("string"@))],
                seq!["session_id"@, "command"@],
            ),
        ),
        tool_entry("debug.modules"@, "List modules for a debug session."@, session_arguments()),
        tool_entry("debug.threads"@, "List threads for a debug session."@, session_arguments()),
        tool_entry("debug.stack"@, "Get stack for a debug session."@, session_arguments()),
        tool_entry(
            "debug.add_symbols"@,
            "Add a symbol path to a debug session."@,
            object_schema(
                seq![
                    ("session_id"@, typed("object"@)),
                    ("symbol_path"@, typed("string"@)),
                    ("reload"@, typed("boolean"@)),
                ],
                seq!["session_id"@, "symbol_path"@],
            ),
        ),
        tool_entry(
            "debug.read_memory"@,
            "Read virtual memory to an artifact."@,
            object_schema(
                seq![
                    ("session_id"@, typed("object"@)),
                    ("address"@, json::JsonView::Object(seq![])),
                    ("length"@, typed("integer"@)),
                ],
                seq!["session_id"@, "address"@, "length"@],
            ),
        ),
        tool_entry("debug.session.close"@, "Close a debug session."@, session_arguments()),
        tool_entry("debug.session.kill"@, "Kill a debug session worker."@, session_arguments()),
        tool_entry(
            "operation.get"@,
            "Return an operation status and artifact refs."@,
            operation_arguments(),
        ),
        tool_entry("operation.cancel"@, "Cancel a running operation."@, operation_arguments()),
        tool_entry("operation.stream"@, "Return operation events."@, operation_arguments()),
        tool_entry(
            "workspace.facts"@,
            "Read workspace facts: artifact registry, operations, and command audit."@,
            object_schema(seq![("path"@, typed("string"@))], seq!["path"@]),
        ),
    ]
}

fn typed_schema(name: &str) -> (schema: Json)
    ensures
        schema@ == typed(name@),
{
    Json::object1("type", Json::text(name))
}

fn schema_of(properties: Json, required: Vec<Json>) -> (schema: Json)
    ensures
        schema@ == json::JsonView::Object(
            seq![
                ("type"@, json::JsonView::Text("object"@)),
                ("properties"@, properties@),
                ("required"@, json::JsonView::Array(json::item_views(required@))),
            ],
        ),
{
    Json::object3(
        "type",
        Json::text("object"),
        "properties",
        properties,
        "required",
        Json::array(required),
    )
}

/// The schema of an object with one property, which is required.
fn schema1(name: &str, property: &str) -> (schema: Json)
    ensures
        schema@ == object_schema(seq![(name@, typed(property@))], seq![name@]),
{
    let required: Vec<Json> = vec![Json::text(name)];
    assert(json::item_views(required@) =~= text_items(seq![name@]));
    schema_of(Json::object1(name, typed_schema(property)), required)
}

/// The schema of an object with two properties, which are required.
fn schema2(name1: &str, property1: &str, name2: &str, property2: &str) -> (schema: Json)
    ensures
        schema@ == object_schema(
            seq![(name1@, typed(property1@)), (name2@, typed(property2@))],
            seq![name1@, name2@],
        ),
{
    let required: Vec<Json> = vec![Json::text(name1), Json::text(name2)];
    assert(json::item_views(required@) =~= text_items(seq![name1@, name2@]));
    schema_of(
        Json::object2(name1, typed_schema(property1), name2, typed_schema(property2)),
        required,
    )
}

fn symbols_schema() -> (schema: Json)
    ensures
        schema@ == object_schema(
            seq![
                ("session_id"@, typed("object"@)),
                ("symbol_path"@, typed("string"@)),
                ("reload"@, typed("boolean"@)),
            ],
            seq!["session_id"@, "symbol_path"@],
        ),
{
    let required: Vec<Json> = vec![Json::text("session_id"), Json::text("symbol_path")];
    assert(json::item_views(required@) =~= text_items(seq!["session_id"@, "symbol_path"@]));
    schema_of(
        Json::object3(
            "session_id",
            typed_schema("object"),
            "symbol_path",
            typed_schema("string"),
            "reload",
            typed_schema("boolean"),
        ),
        required,
    )
}

fn memory_schema() -> (schema: Json)
    ensures
        schema@ == object_schema(
            seq![
                ("session_id"@, typed("object"@)),
                ("address"@, json::JsonView::Object(seq![])),
                ("length"@, typed("integer"@)),
            ],
            seq!["session_id"@, "address"@, "length"@],
        ),
{
    let required: Vec<Json> = vec![
        Json::text("session_id"),
        Json::text("address"),
        Json::text("length"),
    ];
    assert(json::item_views(required@) =~= text_items(
        seq!["session_id"@, "address"@, "length"@],
    ));
    schema_of(
        Json::object3(
            "session_id",
            typed_schema("object"),
            "address",
            Json::empty_object(),
            "length",
            typed_schema("integer"),
        ),
        required,
    )
}

fn tool(name: &str, description: &str, input_schema: Json) -> (entry: Json)
    ensures
        entry@ == tool_entry(name@, description@, input_schema@),
{
    Json::object3(
        "name",
        Json::text(name),
        "description",
        Json::text(description),
        "inputSchema",
        input_schema,
    )
}

fn session_schema() -> (schema: Json)
    ensures
        schema@ == session_arguments(),
{
    schema1("session_id", "object")
}

fn operation_schema() -> (schema: Json)
    ensures
        schema@ == operation_arguments(),
{
    schema1("operation_id", "object")
}

/// The tools, as a client sees them.
pub fn tool_descriptors() -> (tools: Vec<Json>)
    ensures
        json::item_views(tools@) == tool_list(),
{
    let tools: Vec<Json> = vec![
        tool("service.health", "Return DbgAtlas service health.", Json::empty_object()),
        tool("service.info", "Return DbgAtlas service information.", Json::empty_object()),
        tool(
            "debug.session.create",
            "Create a debug session from a dump or attach target.",
            schema2("project_root", "string", "target", "object"),
        ),
        tool(
            "debug.eval",
            "Execute a raw WinDbg command in an existing session.",
            schema2("session_id", "object", "command", "string"),
        ),
        tool("debug.modules", "List modules for a debug session.", session_schema()),
        tool("debug.threads", "List threads for a debug session.", session_schema()),
        tool("debug.stack", "Get stack for a debug session.", session_schema()),
        tool(
            "debug.add_symbols",
            "Add a symbol path to a debug session.",
            symbols_schema(),
        ),
        tool("debug.read_memory", "Read virtual memory to an artifact.", memory_schema()),
        tool("debug.session.close", "Close a debug session.", session_schema()),
        tool("debug.session.kill", "Kill a debug session worker.", session_schema()),
        tool(
            "operation.get",
            "Return an operation status and artifact refs.",
            operation_schema(),
        ),
        tool("operation.cancel", "Cancel a running operation.", operation_schema()),
        tool("operation.stream", "Return operation events.", operation_schema()),
        tool(
            "workspace.facts",
            "Read workspace facts: artifact registry, operations, and command audit.",
            schema1("path", "string"),
        ),
    ];
    assert(json::item_views(tools@) =~= tool_list());
    tools
}

/// A request is answered where, and only where, it has an identifier; the
/// answer carries that identifier, and either a result or an error.
pub proof fn law_only_identified_requests_are_answered(
    id: Option<Json>,
    outcome: OutcomeView,
    response: Option<McpResponse>,
)
    requires
        answers(id, outcome, response),
    ensures
        response is Some <==> id is Some,
        response matches Some(answer) ==> {
            &&& answer.id == id
            &&& (answer.result is Some) != (answer.error is Some)
        },
{
}

/// The tools that are listed are exactly those that can be called: a call is
/// refused as unknown where, and only where, its tool is not listed.
pub proof fn law_listed_tools_can_be_called(name: Seq<char>, arguments: Json, step: ToolStep)
    requires
        tool_does(name, arguments, step),
    ensures
        tool_list().len() == tool_names().len(),
        forall|i: int|
            0 <= i < tool_names().len() ==> (#[trigger] tool_list()[i])->Object_0[0] == (
                "name"@,
                json::JsonView::Text(tool_names()[i]),
            ),
        tool_names().contains(name) <==> !(step matches ToolStep::Refuse(McpError::UnknownTool(_))),
{
    let names = tool_names();
    assert(names[0] == "service.health"@);
    assert(names[1] == "service.info"@);
    assert(names[2] == "debug.session.create"@);
    assert(names[3] == "debug.eval"@);
    assert(names[4] == "debug.modules"@);
    assert(names[5] == "debug.threads"@);
    assert(names[6] == "debug.stack"@);
    assert(names[7] == "debug.add_symbols"@);
    assert(names[8] == "debug.read_memory"@);
    assert(names[9] == "debug.session.close"@);
    assert(names[10] == "debug.session.kill"@);
    assert(names[11] == "operation.get"@);
    assert(names[12] == "operation.cancel"@);
    assert(names[13] == "operation.stream"@);
    assert(names[14] == "workspace.facts"@);
    if names.contains(name) {
        let i = choose|i: int| 0 <= i < names.len() && names[i] == name;
        assert(0 <= i < 15);
    }
}

/// The names of two tools differ in length, or in one of four characters.
proof fn lemma_tool_names_differ()
    ensures
        forall|i: int, k: int|
            0 <= i < k < tool_names().len() ==> #[trigger] tool_names()[i]
                != #[trigger] tool_names()[k],
{
    reveal_strlit("service.health");
    reveal_strlit("service.info");
    reveal_strlit("debug.session.create");
    reveal_strlit("debug.eval");
    reveal_strlit("debug.modules");
    reveal_strlit("debug.threads");
    reveal_strlit("debug.stack");
    reveal_strlit("debug.add_symbols");
    reveal_strlit("debug.read_memory");
    reveal_strlit("debug.session.close");
    reveal_strlit("debug.session.kill");
    reveal_strlit("operation.get");
    reveal_strlit("operation.cancel");
    reveal_strlit("operation.stream");
    reveal_strlit("workspace.facts");
    let names = tool_names();
    assert forall|i: int, k: int| 0 <= i < k < names.len() implies #[trigger] names[i]
        != #[trigger] names[k] by {
        let left = names[i];
        let right = names[k];
        if left.len() == right.len() {
            assert(left[0] != right[0] || left[6] != right[6] || left[10] != right[10] || left[14]
                != right[14]);
        }
    }
}

/// No two tools have the same name.
pub proof fn law_tools_have_different_names(i: int, k: int)
    requires
        0 <= i < tool_names().len(),
        0 <= k < tool_names().len(),
        tool_names()[i] == tool_names()[k],
    ensures
        i == k,
{
    lemma_tool_names_differ();
    if i < k {
        assert(tool_names()[i] != tool_names()[k]);
    } else if k < i {
        assert(tool_names()[k] != tool_names()[i]);
    }
}

} // verus!
