//! The JSON syntax layer: the only place where serde_json is relied on.

use vstd::prelude::*;

use crate::json::JsonValue;

verus! {

/// Declares `serde_json::Value`, the parser's document tree, so that the
/// wrappers below can pass it along; nothing reads its inside directly.
#[verifier::external_type_specification]
#[verifier::external_body]
pub struct ExValue(serde_json::Value);

/// The document tree that the bytes denote: `Some` exactly when the bytes are
/// one well-formed JSON document, as serde_json accepts it.
pub uninterp spec fn json_doc(bytes: Seq<u8>) -> Option<JsonValue>;

/// The tree that a parsed `serde_json::Value` stands for.
pub uninterp spec fn value_rep(v: serde_json::Value) -> JsonValue;

/// Relies on `serde_json::from_slice::<serde_json::Value>`: it parses the
/// bytes as exactly one JSON document, succeeds on every well-formed document
/// and on nothing else, depends on the bytes alone, and reports a syntax
/// error with its location otherwise.
#[verifier::external_body]
fn parse_document(bytes: &[u8]) -> (r: Result<serde_json::Value, String>)
    ensures
        r is Ok <==> json_doc(bytes@) is Some,
        r matches Ok(v) ==> Some(value_rep(v)) == json_doc(bytes@),
{
    match serde_json::from_slice::<serde_json::Value>(bytes) {
        Ok(v) => Ok(v),
        Err(e) => Err(e.to_string()),
    }
}

/// Relies on the public variants of `serde_json::Value`: rebuilds the value
/// as the library's own `JsonValue`, one arm per variant, keeping strings,
/// booleans and array order and dropping numeric payloads.
#[verifier::external_body]
fn model_of_value(v: &serde_json::Value) -> (r: JsonValue)
    ensures
        r == value_rep(*v),
{
    match v {
        serde_json::Value::Null => JsonValue::Null,
        serde_json::Value::Bool(b) => JsonValue::Bool(*b),
        serde_json::Value::Number(_) => JsonValue::Number,
        serde_json::Value::String(s) => JsonValue::String(s.clone()),
        serde_json::Value::Array(a) => JsonValue::Array(a.iter().map(model_of_value).collect()),
        serde_json::Value::Object(m) => JsonValue::Object(
            m.iter().map(|(k, x)| (k.clone(), model_of_value(x))).collect(),
        ),
    }
}

/// Parses bytes into the library's JSON model, or returns the syntax
/// diagnostic for bytes that are not one well-formed JSON document.
pub fn parse_json(bytes: &[u8]) -> (r: Result<JsonValue, String>)
    ensures
        r is Ok <==> json_doc(bytes@) is Some,
        r matches Ok(v) ==> Some(v) == json_doc(bytes@),
{
    match parse_document(bytes) {
        Ok(v) => Ok(model_of_value(&v)),
        Err(e) => Err(e),
    }
}

} // verus!
