//! Trusted access to the JSON codec used for raw log strings.
//!
//! A raw log string is JSON text. The engine reads only named fields of the
//! top-level object: a field as a string, and a field re-encoded as canonical
//! JSON text. Both results are functions of the two texts alone, so each is
//! given an uninterpreted name that the verified decoder's contract speaks of.

use vstd::prelude::*;

verus! {

/// The `key` field of the JSON text `doc` when `doc` parses and that field
/// holds a string: the string's characters. Absent, non-string, or
/// unparseable cases are `None`.
pub uninterp spec fn json_str_field(doc: Seq<char>, key: Seq<char>) -> Option<Seq<char>>;

/// The `key` field of the JSON text `doc` when `doc` parses and the field is
/// present: the field's value re-encoded as canonical JSON text. Absent or
/// unparseable cases are `None`.
pub uninterp spec fn json_field_text(doc: Seq<char>, key: Seq<char>) -> Option<Seq<char>>;

/// Relies on `serde_json::from_str`, `serde_json::Value::get` and
/// `serde_json::Value::as_str`: `get` returns the named field of a JSON
/// object (else `None`), `as_str` returns the contained string for a JSON
/// string (else `None`). The result depends on the two texts alone.
#[verifier::external_body]
pub(crate) fn extract_str_field(raw: &str, key: &str) -> (r: Option<String>)
    ensures
        r.deep_view() == json_str_field(raw@, key@),
{
    match serde_json::from_str::<serde_json::Value>(raw) {
        Ok(v) => match v.get(key) {
            Some(f) => match f.as_str() {
                Some(s) => Some(s.to_string()),
                None => None,
            },
            None => None,
        },
        Err(_) => None,
    }
}

/// Relies on `serde_json::from_str`, `serde_json::Value::get` and
/// `serde_json::to_string`: the named field of a JSON object, re-encoded as
/// JSON text. Encoding a parsed `Value` is deterministic — object members
/// keep the order the text gives them — so the result depends on the two
/// texts alone.
#[verifier::external_body]
pub(crate) fn extract_field_text(raw: &str, key: &str) -> (r: Option<String>)
    ensures
        r.deep_view() == json_field_text(raw@, key@),
{
    match serde_json::from_str::<serde_json::Value>(raw) {
        Ok(v) => match v.get(key) {
            Some(f) => serde_json::to_string(f).ok(),
            None => None,
        },
        Err(_) => None,
    }
}

} // verus!
