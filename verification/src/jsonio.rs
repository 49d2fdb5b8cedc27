//! Trusted boundary to the JSON parser: the verified code sees JSON
//! bodies only through the named results below, each a function of the
//! input text alone.
use vstd::prelude::*;

verus! {

/// Display rendering of the field named `key` of `s` parsed as a JSON
/// object (a string field keeps its quotes), or None when `s` does not
/// parse or has no such field.
pub uninterp spec fn json_field(s: Seq<char>, key: Seq<char>) -> Option<Seq<char>>;

/// Content of the string field named `key` of `s` parsed as a JSON
/// object, or None when `s` does not parse, has no such field, or the
/// field is not a string.
pub uninterp spec fn json_field_str(s: Seq<char>, key: Seq<char>) -> Option<Seq<char>>;

/// Value of the unsigned integer field named `key` of `s` parsed as a
/// JSON object, or None when `s` does not parse, has no such field, or
/// the field is not an unsigned integer.
pub uninterp spec fn json_field_u64(s: Seq<char>, key: Seq<char>) -> Option<u64>;

/// Pretty-printed rendering of `s` parsed as a JSON object with sorted
/// keys, or None when `s` does not parse as a JSON object.
pub uninterp spec fn json_pretty(s: Seq<char>) -> Option<Seq<char>>;

/// Relies on serde_json::from_str, Value::get and Value's Display
/// rendering: looks the field up in the parsed object and renders it
/// back to text. The result depends on `s` and `key` alone.
#[verifier::external_body]
pub fn json_field_text(s: &str, key: &str) -> (r: Option<String>)
    ensures
        match r {
            Some(v) => json_field(s@, key@) == Some(v@),
            None => json_field(s@, key@) is None,
        },
{
    match serde_json::from_str::<serde_json::Value>(s) {
        Ok(value) => match value.get(key) {
            Some(v) => Some(v.to_string()),
            None => None,
        },
        Err(_) => None,
    }
}

/// Relies on serde_json::from_str, Value::get and Value::as_str: looks
/// the field up in the parsed object and returns the content of the
/// string it holds. The result depends on `s` and `key` alone.
#[verifier::external_body]
pub fn json_field_string(s: &str, key: &str) -> (r: Option<String>)
    ensures
        match r {
            Some(v) => json_field_str(s@, key@) == Some(v@),
            None => json_field_str(s@, key@) is None,
        },
{
    match serde_json::from_str::<serde_json::Value>(s) {
        Ok(value) => match value.get(key) {
            Some(v) => match v.as_str() {
                Some(t) => Some(t.to_string()),
                None => None,
            },
            None => None,
        },
        Err(_) => None,
    }
}

/// Relies on serde_json::from_str, Value::get and Value::as_u64: looks
/// the field up in the parsed object and returns the unsigned integer it
/// holds. The result depends on `s` and `key` alone.
#[verifier::external_body]
pub fn json_field_uint(s: &str, key: &str) -> (r: Option<u64>)
    ensures
        match r {
            Some(v) => json_field_u64(s@, key@) == Some(v),
            None => json_field_u64(s@, key@) is None,
        },
{
    match serde_json::from_str::<serde_json::Value>(s) {
        Ok(value) => match value.get(key) {
            Some(v) => v.as_u64(),
            None => None,
        },
        Err(_) => None,
    }
}

/// Relies on serde_json::from_str into serde_json::Map (an ordered map,
/// so the rendering is canonical) and serde_json::to_string_pretty.
/// The result depends on `s` alone.
#[verifier::external_body]
pub fn json_pretty_object(s: &str) -> (r: Option<String>)
    ensures
        match r {
            Some(v) => json_pretty(s@) == Some(v@),
            None => json_pretty(s@) is None,
        },
{
    match serde_json::from_str::<serde_json::Map<String, serde_json::Value>>(s) {
        Ok(m) => serde_json::to_string_pretty(&m).ok(),
        Err(_) => None,
    }
}

} // verus!
