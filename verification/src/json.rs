//! Thin access to serde_json for the two wire documents. What each
//! extraction returns is a function of the body and the key alone, so it is
//! given an uninterpreted name; the verified parsers in `chain_info` and
//! `beacon` state their results over those names exactly.

use vstd::prelude::*;

verus! {

/// The string value under a key of the body's top-level JSON object: `None`
/// when the body is not JSON, the key is absent, or its value is not a
/// string.
pub uninterp spec fn json_str_field(body: Seq<char>, key: Seq<char>) -> Option<Seq<char>>;

/// The unsigned 64-bit integer under a key of the body's top-level JSON
/// object: `None` when the body is not JSON, the key is absent, or its value
/// is not such a number.
pub uninterp spec fn json_u64_field(body: Seq<char>, key: Seq<char>) -> Option<u64>;

/// Whether the body is a JSON document whose top-level object has this key,
/// of whatever value type.
pub uninterp spec fn json_has_field(body: Seq<char>, key: Seq<char>) -> bool;

/// Relies on serde_json::from_str, Value::get and Value::as_str: the string
/// under this key, a function of the body and key alone.
#[verifier::external_body]
pub(crate) fn extract_str(body: &str, key: &str) -> (r: Option<String>)
    ensures
        json_str_field(body@, key@) == (match r {
            Some(s) => Some(s@),
            None => None::<Seq<char>>,
        }),
{
    match serde_json::from_str::<serde_json::Value>(body) {
        Ok(v) => match v.get(key) {
            Some(f) => f.as_str().map(|s| s.to_string()),
            None => None,
        },
        Err(_) => None,
    }
}

/// Relies on serde_json::from_str, Value::get and Value::as_u64: the
/// unsigned integer under this key, a function of the body and key alone.
#[verifier::external_body]
pub(crate) fn extract_u64(body: &str, key: &str) -> (r: Option<u64>)
    ensures
        r == json_u64_field(body@, key@),
{
    match serde_json::from_str::<serde_json::Value>(body) {
        Ok(v) => match v.get(key) {
            Some(f) => f.as_u64(),
            None => None,
        },
        Err(_) => None,
    }
}

/// Relies on serde_json::from_str and Value::get: whether the top-level
/// object has this key, a function of the body and key alone.
#[verifier::external_body]
pub(crate) fn has_field(body: &str, key: &str) -> (r: bool)
    ensures
        r == json_has_field(body@, key@),
{
    match serde_json::from_str::<serde_json::Value>(body) {
        Ok(v) => v.get(key).is_some(),
        Err(_) => false,
    }
}

} // verus!
