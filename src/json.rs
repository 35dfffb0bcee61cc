//! The untyped JSON values that asset objects arrive as, and the one lookup
//! the parsers make into them.

use vstd::prelude::*;

verus! {

#[verifier::external_type_specification]
#[verifier::external_body]
pub struct ExValue(serde_json::Value);

/// The string-valued members of a JSON object, by key; empty for any value
/// that is not an object.
pub uninterp spec fn json_str_members(v: serde_json::Value) -> Map<Seq<char>, Seq<char>>;

/// The string stored under `key` in `m`, if there is one.
pub open spec fn member(m: Map<Seq<char>, Seq<char>>, key: Seq<char>) -> Option<Seq<char>> {
    if m.contains_key(key) {
        Some(m[key])
    } else {
        None
    }
}

/// Relies on serde_json's `Value::get` with a string key (the member of an
/// object, `None` for any other value) followed by `Value::as_str` (the text of
/// a string value, `None` for any other value).
#[verifier::external_body]
pub(crate) fn str_member(v: &serde_json::Value, key: &str) -> (r: Option<String>)
    ensures
        r matches Some(t) ==> member(json_str_members(*v), key@) == Some(t@),
        r is None ==> member(json_str_members(*v), key@) is None,
{
    v.get(key).and_then(serde_json::Value::as_str).map(String::from)
}

} // verus!
