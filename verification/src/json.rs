//! JSON documents as plain values.

use crate::text::text_eq;
use vstd::prelude::*;
use vstd::string::*;

verus! {

/// A JSON document. Whole numbers from zero upwards are `Uint`, those below
/// are `Int`, and other numbers are kept as text.
#[derive(Debug, PartialEq, Eq)]
pub enum Json {
    Null,
    Bool(bool),
    Int(i64),
    Uint(u64),
    Real(String),
    Text(String),
    Array(Vec<Json>),
    Object(Vec<(String, Json)>),
}

/// A JSON document, as contracts speak of it.
pub enum JsonView {
    Null,
    Bool(bool),
    Int(i64),
    Uint(u64),
    Real(Seq<char>),
    Text(Seq<char>),
    Array(Seq<JsonView>),
    Object(Seq<(Seq<char>, JsonView)>),
}

/// What a document holds.
pub open spec fn json_view(json: Json) -> JsonView
    decreases json,
{
    match json {
        Json::Null => JsonView::Null,
        Json::Bool(value) => JsonView::Bool(value),
        Json::Int(value) => JsonView::Int(value),
        Json::Uint(value) => JsonView::Uint(value),
        Json::Real(text) => JsonView::Real(text@),
        Json::Text(text) => JsonView::Text(text@),
        Json::Array(items) => JsonView::Array(
            Seq::new(
                items@.len(),
                |i: int|
                    if 0 <= i < items@.len() {
                        json_view(items@[i])
                    } else {
                        JsonView::Null
                    },
            ),
        ),
        Json::Object(fields) => JsonView::Object(
            Seq::new(
                fields@.len(),
                |i: int|
                    (
                        fields@[i].0@,
                        if 0 <= i < fields@.len() {
                            json_view(fields@[i].1)
                        } else {
                            JsonView::Null
                        },
                    ),
            ),
        ),
    }
}

impl View for Json {
    type V = JsonView;

    open spec fn view(&self) -> JsonView {
        json_view(*self)
    }
}

impl Clone for Json {
    fn clone(&self) -> (copy: Self)
        ensures
            copy@ == self@,
        decreases self,
    {
        match self {
            Json::Null => Json::Null,
            Json::Bool(value) => Json::Bool(*value),
            Json::Int(value) => Json::Int(*value),
            Json::Uint(value) => Json::Uint(*value),
            Json::Real(text) => Json::Real(text.clone()),
            Json::Text(text) => Json::Text(text.clone()),
            Json::Array(items) => {
                let mut copies: Vec<Json> = Vec::new();
                let mut i: usize = 0;
                while i < items.len()
                    invariant
                        self matches Json::Array(inner) && inner == items,
                        i <= items.len(),
                        copies.len() == i,
                        forall|k: int|
                            0 <= k < i ==> json_view(#[trigger] copies@[k]) == json_view(items@[k]),
                    decreases items.len() - i,
                {
                    assert(decreases_to!(self => items@[i as int]));
                    copies.push(items[i].clone());
                    i = i + 1;
                }
                let copy: Json = Json::Array(copies);
                assert(copy@->Array_0 =~= self@->Array_0);
                copy
            },
            Json::Object(fields) => {
                let mut copies: Vec<(String, Json)> = Vec::new();
                let mut i: usize = 0;
                while i < fields.len()
                    invariant
                        self matches Json::Object(inner) && inner == fields,
                        i <= fields.len(),
                        copies.len() == i,
                        forall|k: int|
                            0 <= k < i ==> (#[trigger] copies@[k]).0@ == fields@[k].0@
                                && copies@[k].1@ == fields@[k].1@,
                    decreases fields.len() - i,
                {
                    assert(decreases_to!(self => fields@[i as int].1));
                    copies.push((fields[i].0.clone(), fields[i].1.clone()));
                    i = i + 1;
                }
                let copy: Json = Json::Object(copies);
                assert(copy@->Object_0 =~= self@->Object_0);
                copy
            },
        }
    }
}

/// The fields behind a list.
pub open spec fn field_views(fields: Seq<(String, Json)>) -> Seq<(Seq<char>, JsonView)> {
    fields.map_values(|field: (String, Json)| (field.0@, field.1@))
}

/// The documents behind a list.
pub open spec fn item_views(items: Seq<Json>) -> Seq<JsonView> {
    items.map_values(|item: Json| item@)
}

/// The value of the first field of that name.
pub open spec fn field_of(fields: Seq<(Seq<char>, JsonView)>, name: Seq<char>) -> Option<JsonView>
    decreases fields.len(),
{
    if fields.len() == 0 {
        None
    } else if fields[0].0 == name {
        Some(fields[0].1)
    } else {
        field_of(fields.drop_first(), name)
    }
}

/// The document that holds a whole number.
pub open spec fn number(value: int) -> JsonView {
    if value < 0 {
        JsonView::Int(value as i64)
    } else {
        JsonView::Uint(value as u64)
    }
}

impl Json {
    pub fn text(value: &str) -> (json: Self)
        ensures
            json@ == JsonView::Text(value@),
    {
        Json::Text(value.to_owned())
    }

    /// The document that holds a whole number.
    pub fn number(value: i64) -> (json: Self)
        ensures
            json@ == number(value as int),
    {
        if value < 0 {
            Json::Int(value)
        } else {
            Json::Uint(value as u64)
        }
    }

    pub fn array(items: Vec<Json>) -> (json: Self)
        ensures
            json@ == JsonView::Array(item_views(items@)),
    {
        let json: Json = Json::Array(items);
        assert(json@->Array_0 =~= item_views(items@));
        json
    }

    pub fn object(fields: Vec<(String, Json)>) -> (json: Self)
        ensures
            json@ == JsonView::Object(field_views(fields@)),
    {
        let json: Json = Json::Object(fields);
        assert(json@->Object_0 =~= field_views(fields@));
        json
    }

    /// The object without fields.
    pub fn empty_object() -> (json: Self)
        ensures
            json@ == JsonView::Object(seq![]),
    {
        let fields: Vec<(String, Json)> = Vec::new();
        let json: Json = Json::object(fields);
        assert(json@->Object_0 =~= seq![]);
        json
    }

    /// The object with one field.
    pub fn object1(name: &str, value: Json) -> (json: Self)
        ensures
            json@ == JsonView::Object(seq![(name@, value@)]),
    {
        let json: Json = Json::object(vec![(name.to_owned(), value)]);
        assert(json@->Object_0 =~= seq![(name@, value@)]);
        json
    }

    /// The object with two fields.
    pub fn object2(name1: &str, value1: Json, name2: &str, value2: Json) -> (json: Self)
        ensures
            json@ == JsonView::Object(seq![(name1@, value1@), (name2@, value2@)]),
    {
        let json: Json = Json::object(vec![(name1.to_owned(), value1), (name2.to_owned(), value2)]);
        assert(json@->Object_0 =~= seq![(name1@, value1@), (name2@, value2@)]);
        json
    }

    /// The object with three fields.
    pub fn object3(
        name1: &str,
        value1: Json,
        name2: &str,
        value2: Json,
        name3: &str,
        value3: Json,
    ) -> (json: Self)
        ensures
            json@ == JsonView::Object(
                seq![(name1@, value1@), (name2@, value2@), (name3@, value3@)],
            ),
    {
        let json: Json = Json::object(
            vec![
                (name1.to_owned(), value1),
                (name2.to_owned(), value2),
                (name3.to_owned(), value3),
            ],
        );
        assert(json@->Object_0 =~= seq![(name1@, value1@), (name2@, value2@), (name3@, value3@)]);
        json
    }

    pub fn is_object(&self) -> (yes: bool)
        ensures
            yes == self@ is Object,
    {
        match self {
            Json::Object(_) => true,
            _ => false,
        }
    }

    /// The value of a field of an object.
    #[verifier::loop_isolation(false)]
    pub fn get(&self, name: &str) -> (value: Option<&Json>)
        ensures
            match self@ {
                JsonView::Object(fields) => match value {
                    Some(found) => field_of(fields, name@) == Some(found@),
                    None => field_of(fields, name@) is None,
                },
                _ => value is None,
            },
    {
        match self {
            Json::Object(fields) => {
                let ghost all = self@->Object_0;
                let mut i: usize = 0;
                assert(all.skip(0) =~= all);
                while i < fields.len()
                    invariant
                        i <= fields.len(),
                        all.len() == fields@.len(),
                        forall|k: int|
                            0 <= k < all.len() ==> #[trigger] all[k] == (
                                fields@[k].0@,
                                fields@[k].1@,
                            ),
                        field_of(all, name@) == field_of(all.skip(i as int), name@),
                    decreases fields.len() - i,
                {
                    let ghost rest = all.skip(i as int);
                    assert(rest[0] == all[i as int]);
                    assert(rest.drop_first() =~= all.skip(i + 1));
                    if text_eq(fields[i].0.as_str(), name) {
                        return Some(&fields[i].1);
                    }
                    i = i + 1;
                }
                assert(all.skip(i as int).len() == 0);
                None
            },
            _ => None,
        }
    }
}

/// The documents of `serde_json`.
#[verifier::external_type_specification]
#[verifier::external_body]
pub struct ExValue(serde_json::Value);

/// Builds the `serde_json::Value` of a document, variant by variant.
#[verifier::external_body]
fn outside_value(json: &Json) -> (value: serde_json::Value) {
    match json {
        Json::Null => serde_json::Value::Null,
        Json::Bool(value) => serde_json::Value::Bool(*value),
        Json::Int(value) => serde_json::Value::from(*value),
        Json::Uint(value) => serde_json::Value::from(*value),
        Json::Real(text) => text.parse().map(serde_json::Value::Number).unwrap_or_default(),
        Json::Text(text) => serde_json::Value::from(text.as_str()),
        Json::Array(items) => items.iter().map(outside_value).collect(),
        Json::Object(fields) => fields.iter().map(|field| (field.0.clone(), outside_value(&field.1))).collect(),
    }
}

/// Takes a `serde_json::Value` apart, variant by variant.
#[verifier::external_body]
fn inside_value(value: serde_json::Value) -> (json: Json) {
    match value {
        serde_json::Value::Null => Json::Null,
        serde_json::Value::Bool(value) => Json::Bool(value),
        serde_json::Value::Number(number) => number.as_u64().map(Json::Uint)
            .or_else(|| number.as_i64().map(Json::Int))
            .unwrap_or_else(|| Json::Real(number.to_string())),
        serde_json::Value::String(text) => Json::Text(text),
        serde_json::Value::Array(items) => Json::Array(items.into_iter().map(inside_value).collect()),
        serde_json::Value::Object(fields) => Json::Object(fields.into_iter().map(|(name, value)| (name, inside_value(value))).collect()),
    }
}

/// A text or an error text, as contracts speak of it.
pub open spec fn text_outcome(outcome: Result<String, String>) -> Result<Seq<char>, Seq<char>> {
    match outcome {
        Ok(text) => Ok(text@),
        Err(error) => Err(error@),
    }
}

/// A document or an error text, as contracts speak of it.
pub open spec fn json_outcome(outcome: Result<Json, String>) -> Result<JsonView, Seq<char>> {
    match outcome {
        Ok(json) => Ok(json@),
        Err(error) => Err(error@),
    }
}

/// What `serde_json::to_string` writes for a document.
pub uninterp spec fn compact_text(json: JsonView) -> Result<Seq<char>, Seq<char>>;

/// Calls `serde_json::to_string` on the document. The result depends on the
/// document alone and is one line: no white space stands between values, and a
/// line feed inside a text is escaped. An error comes back as its message.
#[verifier::external_body]
pub(crate) fn write_compact(json: &Json) -> (text: Result<String, String>)
    ensures
        text_outcome(text) == compact_text(json@),
        text matches Ok(written) ==> !written@.contains('\n'),
{
    serde_json::to_string(&outside_value(json)).map_err(|error| error.to_string())
}

/// What `serde_json::to_string_pretty` writes for a document.
pub uninterp spec fn pretty_text(json: JsonView) -> Result<Seq<char>, Seq<char>>;

/// Calls `serde_json::to_string_pretty` on the document. The result depends on
/// the document alone; an error comes back as its message.
#[verifier::external_body]
pub(crate) fn write_pretty(json: &Json) -> (text: Result<String, String>)
    ensures
        text_outcome(text) == pretty_text(json@),
{
    serde_json::to_string_pretty(&outside_value(json)).map_err(|error| error.to_string())
}

/// What `serde_json::from_str` reads from a text.
pub uninterp spec fn parsed(text: Seq<char>) -> Result<JsonView, Seq<char>>;

/// Calls `serde_json::from_str` for a document. The result depends on the text
/// alone; an error comes back as its message.
#[verifier::external_body]
pub(crate) fn read_json(text: &str) -> (json: Result<Json, String>)
    ensures
        json_outcome(json) == parsed(text@),
{
    serde_json::from_str(text).map(inside_value).map_err(|error| error.to_string())
}

} // verus!
