//! The decoded document: JSON as `serde_json` reads it.
//!
//! The decoder is a black box to this library. What is taken on trust of it
//! stands in this file: that decoding is a function of the bytes, what a
//! lookup by key returns, and what counts as an integer.

use serde_json::Value;
use vstd::prelude::*;

verus! {

/// `serde_json::Value`, a decoded JSON value of any shape. The library never
/// looks inside one but through the functions below.
#[verifier::external_type_specification]
#[verifier::external_body]
pub struct ExValue(serde_json::Value);

/// `serde_json::Error`, the decoder's account of why an input was refused.
#[verifier::external_type_specification]
#[verifier::external_body]
pub struct ExError(serde_json::Error);

/// The value that `serde_json::from_slice` decodes from `bytes`, or `None`
/// where it refuses them.
pub uninterp spec fn decoded(bytes: Seq<u8>) -> Option<Value>;

/// The members of a JSON object, by key. A value that is not an object
/// (null, a boolean, a number, a string, an array) has none.
pub uninterp spec fn members(value: Value) -> Map<Seq<char>, Value>;

/// The integer that `Value::as_i64` reads from `value`: `Some` where the
/// value is a number that the decoder holds as an integer and that fits an
/// `i64`, `None` for every other value.
pub uninterp spec fn integer_of(value: Value) -> Option<i64>;

/// Calls `serde_json::from_slice` for a `Value`. Trusted: the outcome depends
/// on the bytes alone, so it is `decoded` of them, and an error stands for a
/// refusal.
#[verifier::external_body]
pub(crate) fn decode(bytes: &[u8]) -> (outcome: Result<Value, serde_json::Error>)
    ensures
        match outcome {
            Ok(value) => decoded(bytes@) == Some(value),
            Err(_) => decoded(bytes@) is None,
        },
{
    serde_json::from_slice::<Value>(bytes)
}

/// Calls `Value::get` with a string key. Trusted: on an object it is the
/// lookup of `key` among the members; on any other value it is `None`, as
/// such a value has no members.
#[verifier::external_body]
pub(crate) fn member<'a>(value: &'a Value, key: &str) -> (found: Option<&'a Value>)
    ensures
        match found {
            Some(inner) => members(*value).contains_key(key@) && *inner == members(*value)[key@],
            None => !members(*value).contains_key(key@),
        },
{
    value.get(key)
}

/// `Value::as_i64`. Trusted: the result is the integer reading of the value.
pub assume_specification[ serde_json::Value::as_i64 ](value: &Value) -> (reading: Option<i64>)
    ensures
        reading == integer_of(*value),
;

} // verus!
