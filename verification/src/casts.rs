//! The checked integer conversions of the `cast` crate.

use vstd::prelude::*;

verus! {

/// The error of a checked conversion of the `cast` crate.
#[verifier::external_type_specification]
#[verifier::external_body]
pub struct ExCastError(cast::Error);

/// `cast::u16` on a `u32`: the same number where it is at most `u16::MAX`,
/// an error where it is larger.
#[verifier::external_body]
pub(crate) fn u16_of_u32(x: u32) -> (r: Result<u16, cast::Error>)
    ensures
        r is Ok <==> x <= u16::MAX,
        r matches Ok(v) ==> v == x,
{
    cast::u16(x)
}

/// `cast::u32` on a `u16`: the same number, which always fits.
#[verifier::external_body]
pub(crate) fn u32_of_u16(x: u16) -> (r: u32)
    ensures
        r == x,
{
    cast::u32(x)
}

} // verus!
