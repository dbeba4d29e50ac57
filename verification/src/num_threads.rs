//! The number of worker threads that the engine uses.

use crate::cast::{i32_to_u64, u64_to_i32};
use crate::engine::ConfigCall;
use vstd::prelude::*;

verus! {

/// What the engine is told in place of a number of threads where it is to
/// choose the number itself.
pub const AUTOMATIC: i32 = -1;

/// Hands back the call that sets the number of threads. No number lets the
/// engine choose, which it is told by `AUTOMATIC`. A number is refused where it is 0
/// or where no `i32` holds it.
pub fn set(num_threads: Option<u64>) -> (call: Option<ConfigCall>)
    ensures
        call == match num_threads {
            None => Some(ConfigCall::SetNumThreads { num_threads: AUTOMATIC }),
            Some(n) => if 1 <= n <= i32::MAX {
                Some(ConfigCall::SetNumThreads { num_threads: n as i32 })
            } else {
                None::<ConfigCall>
            },
        },
{
    match num_threads {
        Some(n) => match u64_to_i32(n) {
            Some(count) => {
                if count >= 1 {
                    Some(ConfigCall::SetNumThreads { num_threads: count })
                } else {
                    None
                }
            },
            None => None,
        },
        None => Some(ConfigCall::SetNumThreads { num_threads: AUTOMATIC }),
    }
}

/// Reads the number of threads that the engine reports: the same number, or
/// nothing where it is negative.
pub fn get(raw: i32) -> (num_threads: Option<u64>)
    ensures
        num_threads == if 0 <= raw {
            Some(raw as u64)
        } else {
            None::<u64>
        },
{
    i32_to_u64(raw)
}

} // verus!
