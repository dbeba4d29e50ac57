//! Checked conversions between the integer types that the engine and its
//! callers use.

use vstd::prelude::*;

verus! {

/// `num_traits::cast::cast` from `u64` to `i64`: the same number where `i64`
/// can hold it, nothing where it cannot.
#[verifier::external_body]
pub(crate) fn u64_to_i64(n: u64) -> (r: Option<i64>)
    ensures
        r == if n <= i64::MAX { Some(n as i64) } else { None::<i64> },
{
    num_traits::cast::cast::<u64, i64>(n)
}

/// `num_traits::cast::cast` from `u64` to `i32`: the same number where `i32`
/// can hold it, nothing where it cannot.
#[verifier::external_body]
pub(crate) fn u64_to_i32(n: u64) -> (r: Option<i32>)
    ensures
        r == if n <= i32::MAX { Some(n as i32) } else { None::<i32> },
{
    num_traits::cast::cast::<u64, i32>(n)
}

/// `num_traits::cast::cast` from `u16` to `i32`: always the same number, since
/// `i32` holds every `u16`.
#[verifier::external_body]
pub(crate) fn u16_to_i32(n: u16) -> (r: Option<i32>)
    ensures
        r == Some(n as i32),
{
    num_traits::cast::cast::<u16, i32>(n)
}

/// `num_traits::cast::cast` from `i32` to `u16`: the same number where `u16`
/// can hold it, nothing where it cannot.
#[verifier::external_body]
pub(crate) fn i32_to_u16(n: i32) -> (r: Option<u16>)
    ensures
        r == if 0 <= n <= u16::MAX { Some(n as u16) } else { None::<u16> },
{
    num_traits::cast::cast::<i32, u16>(n)
}

/// `num_traits::cast::cast` from `i32` to `u64`: the same number where it is
/// not negative, nothing where it is.
#[verifier::external_body]
pub(crate) fn i32_to_u64(n: i32) -> (r: Option<u64>)
    ensures
        r == if 0 <= n { Some(n as u64) } else { None::<u64> },
{
    num_traits::cast::cast::<i32, u64>(n)
}

} // verus!
