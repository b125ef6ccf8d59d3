//! A JSON document as a tree of plain values, read with `serde_json`.

use vstd::prelude::*;

verus! {

/// A JSON value. A number keeps its value only where it is an integer that fits
/// 64 signed bits; the members of an object stand in the order in which the
/// parser's map yields them.
#[derive(Debug, PartialEq, Eq)]
pub enum Json {
    Null,
    Bool(bool),
    Number(Option<i64>),
    Text(String),
    Array(Vec<Json>),
    Object(Vec<Member>),
}

/// One member of a JSON object.
#[derive(Debug, PartialEq, Eq)]
pub struct Member {
    pub key: String,
    pub value: Json,
}

/// `serde_json::Value`, carried through as it is; nothing inside it is seen.
#[verifier::external_type_specification]
#[verifier::external_body]
pub struct ExValue(serde_json::Value);

/// The tree that a `serde_json::Value` holds.
pub uninterp spec fn json_content(v: serde_json::Value) -> Json;

/// The document that a text is read as, or `None` where it is not JSON.
pub uninterp spec fn json_document(text: Seq<char>) -> Option<Json>;

/// `serde_json::from_str` at the type `serde_json::Value`: whether a text is a
/// JSON document, and which one, depends on the text alone. The error's
/// message is handed on as it is, with nothing claimed of it.
#[verifier::external_body]
fn parse_value(text: &str) -> (r: Result<serde_json::Value, String>)
    ensures
        match r {
            Ok(v) => json_document(text@) == Some(json_content(v)),
            Err(_) => json_document(text@) is None,
        },
{
    serde_json::from_str::<serde_json::Value>(text).map_err(|e| e.to_string())
}

/// Copies a `serde_json::Value` into a tree, variant by variant: a number
/// through `Number::as_i64`, the members of an object in the order of
/// `Map::iter`.
#[verifier::external_body]
fn tree_of(v: &serde_json::Value) -> (t: Json)
    ensures
        t == json_content(*v),
{
    match v {
        serde_json::Value::Null => Json::Null,
        serde_json::Value::Bool(b) => Json::Bool(*b),
        serde_json::Value::Number(n) => Json::Number(n.as_i64()),
        serde_json::Value::String(s) => Json::Text(s.clone()),
        serde_json::Value::Array(a) => Json::Array(a.iter().map(tree_of).collect()),
        serde_json::Value::Object(m) => Json::Object(
            m.iter().map(|(k, v)| Member { key: k.clone(), value: tree_of(v) }).collect(),
        ),
    }
}

/// Reads a text as a JSON document. Fails, with the parser's message, exactly
/// where the text is not one.
pub fn parse_json(text: &str) -> (r: Result<Json, String>)
    ensures
        match r {
            Ok(t) => json_document(text@) == Some(t),
            Err(_) => json_document(text@) is None,
        },
{
    match parse_value(text) {
        Ok(v) => Ok(tree_of(&v)),
        Err(e) => Err(e),
    }
}

} // verus!
