//! Single fields of JSON texts.

use vstd::prelude::*;

verus! {

/// The string under a key of the object that a JSON text holds; none where the text is not JSON,
/// where it holds no such key, or where the value is not a string.
pub uninterp spec fn json_string_field(text: Seq<char>, key: Seq<char>) -> Option<Seq<char>>;

/// Calls `serde_json::from_str` for a `serde_json::Value`, and then `get` and `as_str` of that
/// value. The result depends on the text and the key alone.
#[verifier::external_body]
pub(crate) fn string_field(text: &str, key: &str) -> (value: Option<String>)
    ensures
        match value {
            Some(v) => json_string_field(text@, key@) == Some(v@),
            None => json_string_field(text@, key@) is None,
        },
{
    let value: serde_json::Value = serde_json::from_str(text).ok()?;
    value.get(key).and_then(serde_json::Value::as_str).map(str::to_string)
}

/// The integer under a key of the object that a JSON text holds; none where the text is not JSON,
/// where it holds no such key, or where the value is not an integer of 64 bits.
pub uninterp spec fn json_integer_field(text: Seq<char>, key: Seq<char>) -> Option<i64>;

/// Calls `serde_json::from_str` for a `serde_json::Value`, and then `get` and `as_i64` of that
/// value. The result depends on the text and the key alone.
#[verifier::external_body]
pub(crate) fn integer_field(text: &str, key: &str) -> (value: Option<i64>)
    ensures
        value == json_integer_field(text@, key@),
{
    let value: serde_json::Value = serde_json::from_str(text).ok()?;
    value.get(key).and_then(serde_json::Value::as_i64)
}

} // verus!
