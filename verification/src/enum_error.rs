//! The error that converting an unknown ProtoBuf number into an enumeration returns:
//! `prost::UnknownEnumValue`, the type that the `prost` crate gives that error.

use vstd::prelude::*;

verus! {

/// The `prost` crate's error for a number that no variant of an enumeration has.
#[verifier::external_type_specification]
#[verifier::external_body]
pub struct ExUnknownEnumValue(prost::UnknownEnumValue);

/// The value of `prost::UnknownEnumValue(value)`: the error that records the unknown number
/// `value`.
pub uninterp spec fn unknown_enum_value(value: i32) -> prost::UnknownEnumValue;

/// Builds `prost::UnknownEnumValue(value)` with the tuple-struct constructor of the `prost`
/// crate. Claimed: the result is the error that records `value`, and two calls with the same
/// number give equal errors. What the error holds is not stated here, because the type is
/// opaque to Verus; the constructor stores `value` in its one public field.
#[verifier::external_body]
pub(crate) fn make_unknown_enum_value(value: i32) -> (r: prost::UnknownEnumValue)
    ensures
        r == unknown_enum_value(value),
{
    prost::UnknownEnumValue(value)
}

} // verus!
