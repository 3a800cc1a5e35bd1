//! Reading integers out of JSON objects.

use vstd::prelude::*;

verus! {

#[verifier::external_type_specification]
#[verifier::external_body]
pub struct ExJsonValue(serde_json::Value);

/// The integers that a JSON object holds, by key: the members whose value is a number that is
/// stored as an integer and lies between `i64::MIN` and `i64::MAX`. A number that is stored as a
/// float counts for none, whatever its value, and anything but an object holds none.
pub uninterp spec fn json_integers(value: serde_json::Value) -> Map<Seq<char>, i64>;

/// Looks a member up with `serde_json::Value::get` and reads it with
/// `serde_json::Value::as_i64`.
///
/// Claims that the two depend on `value` and `key` alone: `get` finds the member of an object
/// that is filed under the key and nothing in any other value, and `as_i64` gives an integer
/// where it fits and nothing for any other member. Which integers a given value holds is left
/// unsaid, since the value is opaque.
#[verifier::external_body]
pub(crate) fn integer_member(value: &serde_json::Value, key: &str) -> (integer: Option<i64>)
    ensures
        integer == (if json_integers(*value).dom().contains(key@) {
            Some(json_integers(*value)[key@])
        } else {
            None
        }),
{
    value.get(key).and_then(serde_json::Value::as_i64)
}

} // verus!
