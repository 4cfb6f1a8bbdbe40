use vstd::prelude::*;

verus! {

#[verifier::external_type_specification]
#[verifier::external_body]
pub struct ExJsonValue(serde_json::Value);

/// The JSON value that `serde_json::Value::String` makes of a string.
pub uninterp spec fn json_string(s: Seq<char>) -> serde_json::Value;

/// The JSON value that `serde_json::Value::from` makes of a `u32` (a number).
pub uninterp spec fn json_from_u32(n: u32) -> serde_json::Value;

/// Wraps a string as `serde_json::Value::String`. What is claimed: the result
/// depends on the characters of the string alone.
#[verifier::external_body]
pub(crate) fn json_string_value(s: String) -> (v: serde_json::Value)
    ensures
        v == json_string(s@),
{
    serde_json::Value::String(s)
}

/// Converts a `u32` with `serde_json::Value::from` (a JSON number). What is
/// claimed: the result depends on the number alone.
#[verifier::external_body]
pub(crate) fn json_u32_value(n: u32) -> (v: serde_json::Value)
    ensures
        v == json_from_u32(n),
{
    serde_json::Value::from(n)
}

/// `serde_json::Value` derives `Clone`, so a clone is the same value.
pub assume_specification[ <serde_json::Value as Clone>::clone ](v: &serde_json::Value) -> (r: serde_json::Value)
    ensures
        r == *v,
;

} // verus!
