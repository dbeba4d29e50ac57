//! Bounds and answers: keeping a bound inside the engine's domain, and telling
//! the engine's answers from its failures.

use crate::engine::PRIMESIEVE_ERROR;
use vstd::math::{max, min};
use vstd::prelude::*;

verus! {

/// The bound that `v` becomes under the ceiling `max_stop`: `v` itself where it
/// does not exceed the ceiling, the ceiling where it does.
pub open spec fn clamped(v: u64, max_stop: u64) -> u64 {
    min(max(v as int, 0), max_stop as int) as u64
}

/// What the raw answer `raw` of the engine means: nothing where it is the
/// sentinel, the number itself everywhere else.
pub open spec fn decoded(raw: u64) -> Option<u64> {
    if raw == PRIMESIEVE_ERROR {
        None
    } else {
        Some(raw)
    }
}

/// `num_traits::clamp` on `u64`: `input` where it lies in `[min, max]`, `min`
/// where it is below and `max` where it is above. The bounds must be in order,
/// or the call panics in a debug build.
#[verifier::external_body]
fn clamp_u64(input: u64, min: u64, max: u64) -> (r: u64)
    requires
        min <= max,
    ensures
        r == if input < min {
            min
        } else if input > max {
            max
        } else {
            input
        },
{
    num_traits::clamp(input, min, max)
}

/// Brings `v` into `[0, max_stop]`, where `max_stop` is the ceiling that the
/// engine reports at this moment.
pub fn clamp(v: u64, max_stop: u64) -> (b: u64)
    ensures
        b == clamped(v, max_stop),
        0 <= b <= max_stop,
{
    clamp_u64(v, 0, max_stop)
}

/// Reads a raw answer of the engine: `None` for the sentinel and for no other
/// number, however large.
pub fn decode(raw: u64) -> (r: Option<u64>)
    ensures
        r == decoded(raw),
{
    if raw != PRIMESIEVE_ERROR {
        Some(raw)
    } else {
        None
    }
}

} // verus!
