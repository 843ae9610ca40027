//! The JSON tree that the envelope logic reads, and its text form.
use vstd::prelude::*;

verus! {

#[verifier::external_type_specification]
#[verifier::external_body]
pub struct ExNumber(serde_json::Number);

#[verifier::external_type_specification]
#[verifier::external_body]
pub struct ExValue(serde_json::Value);

/// A JSON value. Numbers are carried through as serde_json's own number type.
/// An object is a list of members; one that was parsed from text lists its
/// members sorted by key, one per key, and text is written the same way.
#[derive(Debug, PartialEq)]
pub enum Json {
    Null,
    Bool(bool),
    Number(serde_json::Number),
    Str(String),
    Array(Vec<Json>),
    Object(Vec<(String, Json)>),
}

/// The value that a JSON text denotes, or `None` where the bytes are no JSON text.
pub uninterp spec fn json_parse(text: Seq<u8>) -> Option<Json>;

/// The compact JSON text of a value.
pub uninterp spec fn json_text(value: Json) -> Seq<u8>;

/// Relies on serde_json::from_slice: the bytes are read as one JSON document,
/// and whether that succeeds, and the tree it gives, depend on the bytes alone.
#[verifier::external_body]
pub(crate) fn parse_json(text: &[u8]) -> (r: Option<Json>)
    ensures
        r == json_parse(text@),
{
    serde_json::from_slice::<serde_json::Value>(text).ok().map(from_serde)
}

/// Relies on serde_json's `Display` for `Value`: the compact text of the value,
/// which depends on the value alone.
#[verifier::external_body]
pub(crate) fn json_to_bytes(value: &Json) -> (r: Vec<u8>)
    ensures
        r@ == json_text(*value),
{
    to_serde(value).to_string().into_bytes()
}

/// Moves a serde_json tree into a `Json`, variant for variant.
#[verifier::external_body]
fn from_serde(v: serde_json::Value) -> Json {
    match v {
        serde_json::Value::Null => Json::Null,
        serde_json::Value::Bool(b) => Json::Bool(b),
        serde_json::Value::Number(n) => Json::Number(n),
        serde_json::Value::String(s) => Json::Str(s),
        serde_json::Value::Array(a) => Json::Array(a.into_iter().map(from_serde).collect()),
        serde_json::Value::Object(m) => Json::Object(m.into_iter().map(|(k, v)| (k, from_serde(v))).collect()),
    }
}

/// Copies a `Json` into a serde_json tree, variant for variant.
#[verifier::external_body]
fn to_serde(v: &Json) -> serde_json::Value {
    match v {
        Json::Null => serde_json::Value::Null,
        Json::Bool(b) => serde_json::Value::Bool(*b),
        Json::Number(n) => serde_json::Value::Number(n.clone()),
        Json::Str(s) => serde_json::Value::String(s.clone()),
        Json::Array(a) => serde_json::Value::Array(a.iter().map(to_serde).collect()),
        Json::Object(m) => serde_json::Value::Object(m.iter().map(|(k, v)| (k.clone(), to_serde(v))).collect()),
    }
}

} // verus!
