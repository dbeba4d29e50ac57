//! The size of the engine's sieve array, in kibibytes.

use crate::cast::{i32_to_u16, u16_to_i32};
use crate::engine::ConfigCall;
use vstd::prelude::*;

verus! {

/// Hands back the call that sets the sieve size, or refuses a size outside
/// `1..=2048`.
pub fn set(sieve_size: u16) -> (call: Option<ConfigCall>)
    ensures
        call == if 1 <= sieve_size <= 2048 {
            Some(ConfigCall::SetSieveSize { sieve_size: sieve_size as i32 })
        } else {
            None::<ConfigCall>
        },
{
    match u16_to_i32(sieve_size) {
        Some(n) => {
            if 1 <= n && n <= 2048 {
                Some(ConfigCall::SetSieveSize { sieve_size: n })
            } else {
                None
            }
        },
        None => None,
    }
}

/// Reads the sieve size that the engine reports: the same number, or nothing
/// where no `u16` holds it.
pub fn get(raw: i32) -> (sieve_size: Option<u16>)
    ensures
        sieve_size == if 0 <= raw <= u16::MAX {
            Some(raw as u16)
        } else {
            None::<u16>
        },
{
    i32_to_u16(raw)
}

} // verus!
