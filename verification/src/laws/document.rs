//! Laws on documents.

use crate::json::{Json, JsonView};
use crate::rpc::{rpc_call, JsonRpcRequest};
use vstd::prelude::*;
use vstd::string::*;

verus! {

/// The document is an object that has a field of that name with that value.
pub open spec fn holds(document: JsonView, name: Seq<char>, value: JsonView) -> bool {
    document matches JsonView::Object(fields) && exists|i: int|
        0 <= i < fields.len() && #[trigger] fields[i] == (name, value)
}

/// The document is an object of that many fields.
pub open spec fn has_fields(document: JsonView, count: int) -> bool {
    document matches JsonView::Object(fields) && fields.len() == count
}

/// The document is an object whose only field is the identifier.
pub open spec fn refers(document: JsonView, id: Seq<char>) -> bool {
    has_fields(document, 1) && holds(document, "id"@, JsonView::Text(id))
}

/// The document is an array of these texts, in order.
pub open spec fn lists_texts(document: JsonView, texts: Seq<String>) -> bool {
    document matches JsonView::Array(items) && items.len() == texts.len() && forall|i: int|
        0 <= i < texts.len() ==> #[trigger] items[i] == JsonView::Text(texts[i]@)
}

/// The parameters of a request.
pub open spec fn params_of(request: JsonRpcRequest) -> JsonView {
    request.params->0@
}

/// The request has parameters, and what every call has: the version of the
/// protocol, and an identifier, without which it would not be answered.
pub open spec fn is_request(request: JsonRpcRequest) -> bool {
    &&& request.jsonrpc@ == "2.0"@
    &&& request.id matches Some(id) && id@ == JsonView::Uint(1)
    &&& request.params is Some
}

/// A call has the method and the parameters that it was made with.
pub proof fn law_calls_carry_their_method(method: &str, params: Json, request: JsonRpcRequest)
    requires
        call_ensures(rpc_call, (method, params), request),
    ensures
        is_request(request),
        request.method@ == method@,
        params_of(request) == params@,
{
}

/// A field is found by its name, and is the first of that name.
pub proof fn law_fields_are_found(document: Json, name: &str, found: Option<&Json>)
    requires
        call_ensures(Json::get, (&document, name), found),
    ensures
        found matches Some(value) ==> document@ is Object && exists|i: int|
            #![trigger document@->Object_0[i]]
            {
                &&& 0 <= i < document@->Object_0.len()
                &&& document@->Object_0[i] == (name@, value@)
                &&& forall|k: int| 0 <= k < i ==> (#[trigger] document@->Object_0[k]).0 != name@
            },
        !(document@ is Object) ==> found is None,
        found is None && document@ is Object ==> forall|i: int|
            0 <= i < document@->Object_0.len() ==> (#[trigger] document@->Object_0[i]).0 != name@,
{
    if let JsonView::Object(fields) = document@ {
        lemma_field_of(fields, name@);
    }
}

proof fn lemma_field_of(fields: Seq<(Seq<char>, JsonView)>, name: Seq<char>)
    ensures
        match crate::json::field_of(fields, name) {
            Some(value) => exists|i: int|
                0 <= i < fields.len() && #[trigger] fields[i] == (name, value) && forall|k: int|
                    0 <= k < i ==> (#[trigger] fields[k]).0 != name,
            None => forall|i: int| 0 <= i < fields.len() ==> (#[trigger] fields[i]).0 != name,
        },
    decreases fields.len(),
{
    if fields.len() > 0 {
        let rest = fields.drop_first();
        if fields[0].0 == name {
            assert(fields[0] == (name, fields[0].1));
        } else {
            lemma_field_of(rest, name);
            match crate::json::field_of(rest, name) {
                Some(value) => {
                    let i = choose|i: int|
                        0 <= i < rest.len() && #[trigger] rest[i] == (name, value) && forall|k: int|
                            0 <= k < i ==> (#[trigger] rest[k]).0 != name;
                    assert(fields[i + 1] == (name, value));
                    assert forall|k: int| 0 <= k < i + 1 implies (#[trigger] fields[k]).0
                        != name by {
                        if k > 0 {
                            assert(rest[k - 1] == fields[k]);
                        }
                    }
                },
                None => {
                    assert forall|i: int| 0 <= i < fields.len() implies (#[trigger] fields[i]).0
                        != name by {
                        if i > 0 {
                            assert(rest[i - 1] == fields[i]);
                        }
                    }
                },
            }
        }
    }
}

/// A document is made of what it was given: a text of its characters, a list
/// of its items in order, an object of its fields in order.
pub proof fn law_documents_are_made_of_their_parts(
    text: &str,
    of_text: Json,
    items: Vec<Json>,
    of_items: Json,
    fields: Vec<(String, Json)>,
    of_fields: Json,
    empty: Json,
)
    requires
        call_ensures(Json::text, (text,), of_text),
        call_ensures(Json::array, (items,), of_items),
        call_ensures(Json::object, (fields,), of_fields),
        call_ensures(Json::empty_object, (), empty),
    ensures
        of_text@ == JsonView::Text(text@),
        of_items@ is Array,
        of_items@->Array_0.len() == items@.len(),
        forall|i: int| 0 <= i < items@.len() ==> #[trigger] of_items@->Array_0[i] == items@[i]@,
        has_fields(of_fields@, fields@.len() as int),
        forall|i: int|
            0 <= i < fields@.len() ==> #[trigger] of_fields@->Object_0[i] == (
                fields@[i].0@,
                fields@[i].1@,
            ),
        has_fields(empty@, 0),
{
}

/// An object has the fields that it was given, and no other.
pub proof fn law_objects_have_their_fields(
    name1: &str,
    value1: Json,
    name2: &str,
    value2: Json,
    name3: &str,
    value3: Json,
    one: Json,
    two: Json,
    three: Json,
)
    requires
        call_ensures(Json::object1, (name1, value1), one),
        call_ensures(Json::object2, (name1, value1, name2, value2), two),
        call_ensures(Json::object3, (name1, value1, name2, value2, name3, value3), three),
    ensures
        has_fields(one@, 1) && holds(one@, name1@, value1@),
        has_fields(two@, 2) && holds(two@, name1@, value1@) && holds(two@, name2@, value2@),
        has_fields(three@, 3) && holds(three@, name1@, value1@) && holds(three@, name2@, value2@)
            && holds(three@, name3@, value3@),
{
    assert(one@->Object_0[0] == (name1@, value1@));
    assert(two@->Object_0[0] == (name1@, value1@));
    assert(two@->Object_0[1] == (name2@, value2@));
    assert(three@->Object_0[0] == (name1@, value1@));
    assert(three@->Object_0[1] == (name2@, value2@));
    assert(three@->Object_0[2] == (name3@, value3@));
}

/// A number is kept with its sign, and an object is told from everything else.
pub proof fn law_numbers_keep_their_sign(value: i64, number: Json, other: Json, yes: bool)
    requires
        call_ensures(Json::number, (value,), number),
        call_ensures(Json::is_object, (&other,), yes),
    ensures
        value < 0 ==> number@ == JsonView::Int(value),
        value >= 0 ==> number@ == JsonView::Uint(value as u64),
        yes <==> other@ is Object,
{
}

} // verus!
