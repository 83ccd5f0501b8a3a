//! Trusted boundary to the JSON library.
//!
//! Tool arguments arrive as raw JSON text and the dispatcher's error
//! payloads leave as JSON text; both sides go through serde_json.  A
//! parsed document is opaque to the verifier, so each wrapper states
//! only what the library's source shows, and the verified dispatcher
//! takes the extracted plain values from here as arguments.

use vstd::prelude::*;

verus! {

#[verifier::external_type_specification]
#[verifier::external_body]
pub struct ExValue(serde_json::Value);

/// Whether serde_json's parser accepts `s` as a JSON document (its
/// recursion limit included); a function of the text alone.
pub uninterp spec fn json_parses(s: Seq<char>) -> bool;

/// Relies on serde_json::from_str::<Value>: parses a JSON document,
/// succeeding exactly on text its parser accepts.
#[verifier::external_body]
pub(crate) fn parse_json(s: &str) -> (r: Option<serde_json::Value>)
    ensures
        r.is_some() == json_parses(s@),
{
    serde_json::from_str::<serde_json::Value>(s).ok()
}

/// Relies on serde_json::Value::get: looks a key up in an object;
/// `None` on non-objects and absent keys.
#[verifier::external_body]
pub(crate) fn get_field<'a>(v: &'a serde_json::Value, key: &str) -> (r: Option<&'a serde_json::Value>) {
    v.get(key)
}

/// Relies on serde_json::Value::as_u64: the value of a non-negative
/// integer number that fits in a `u64`, else `None`.
#[verifier::external_body]
pub(crate) fn value_as_u64(v: &serde_json::Value) -> (r: Option<u64>) {
    v.as_u64()
}

/// Relies on serde_json::Value::as_str: the text of a string value,
/// else `None`.
#[verifier::external_body]
pub(crate) fn value_as_string(v: &serde_json::Value) -> (r: Option<String>) {
    match v.as_str() {
        Some(s) => Some(s.to_string()),
        None => None,
    }
}

/// The compact rendering of the JSON object `{"error": <msg>}`, with
/// serde_json's string escaping applied to `msg`; a function of the
/// message alone.
pub uninterp spec fn json_error_payload(msg: Seq<char>) -> Seq<char>;

/// Relies on serde_json::Value::to_string: renders `{"error": msg}` as
/// one compact JSON object, escaping `msg` as JSON requires.
#[verifier::external_body]
pub(crate) fn json_error_string(msg: &str) -> (r: String)
    ensures
        r@ == json_error_payload(msg@),
{
    let mut obj = serde_json::Map::new();
    obj.insert("error".to_string(), serde_json::Value::String(msg.to_string()));
    serde_json::Value::Object(obj).to_string()
}

} // verus!
