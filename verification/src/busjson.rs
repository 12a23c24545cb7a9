//! Trusted access to the JSON text the bus prints. The bus answers each
//! call with a JSON object on standard output; the gateway reads single
//! top-level fields out of that text through serde_json.

use vstd::prelude::*;

verus! {

/// The string value of the named top-level field of the given JSON
/// text, if the text parses as a JSON object carrying one.
pub uninterp spec fn str_field_of(text: Seq<char>, key: Seq<char>) -> Option<Seq<char>>;

/// The unsigned 64-bit value of the named top-level field of the given
/// JSON text, if the text parses as a JSON object carrying one.
pub uninterp spec fn u64_field_of(text: Seq<char>, key: Seq<char>) -> Option<u64>;

/// Relies on serde_json::from_str, Value::get and Value::as_str: the
/// text is parsed and the named field's text is handed out when the
/// field is a JSON string. The result is a function of the two
/// arguments alone.
#[verifier::external_body]
pub(crate) fn json_str_field(text: &str, key: &str) -> (r: Option<String>)
    ensures
        r.deep_view() == str_field_of(text@, key@),
{
    match serde_json::from_str::<serde_json::Value>(text) {
        Ok(v) => match v.get(key) {
            Some(f) => f.as_str().map(|s| s.to_string()),
            None => None,
        },
        Err(_) => None,
    }
}

/// Relies on serde_json::from_str, Value::get and Value::as_u64: the
/// text is parsed and the named field's value is handed out when the
/// field is a JSON number representable as a u64. The result is a
/// function of the two arguments alone.
#[verifier::external_body]
pub(crate) fn json_u64_field(text: &str, key: &str) -> (r: Option<u64>)
    ensures
        r == u64_field_of(text@, key@),
{
    match serde_json::from_str::<serde_json::Value>(text) {
        Ok(v) => match v.get(key) {
            Some(f) => f.as_u64(),
            None => None,
        },
        Err(_) => None,
    }
}

} // verus!
