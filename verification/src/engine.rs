//! The engine's primitives, written down as values.
//!
//! Nothing in this crate calls the engine. A query hands back one of the calls
//! below, and the owner of the engine performs it.

use crate::tupling::Tupling;
use vstd::prelude::*;

verus! {

/// The answer by which the engine says that a count or an nth prime could not
/// be had. No count and no prime is this large.
pub const PRIMESIEVE_ERROR: u64 = 0xffff_ffff_ffff_ffff;

/// The engine's tag for a buffer of `i16`.
pub const INT16_PRIMES: u32 = 8;

/// The engine's tag for a buffer of `u16`.
pub const UINT16_PRIMES: u32 = 9;

/// The engine's tag for a buffer of `i32`.
pub const INT32_PRIMES: u32 = 10;

/// The engine's tag for a buffer of `u32`.
pub const UINT32_PRIMES: u32 = 11;

/// The engine's tag for a buffer of `i64`.
pub const INT64_PRIMES: u32 = 12;

/// The engine's tag for a buffer of `u64`.
pub const UINT64_PRIMES: u32 = 13;

/// A call of one of the engine's six counting primitives. Each counts the
/// constellations of its kind whose first prime lies in `[start, stop]`, and
/// answers with the count or with `PRIMESIEVE_ERROR`.
#[derive(Debug, PartialEq, Eq, Hash, Clone, Copy, Structural)]
pub enum CountCall {
    Primes { start: u64, stop: u64 },
    Twins { start: u64, stop: u64 },
    Triplets { start: u64, stop: u64 },
    Quadruplets { start: u64, stop: u64 },
    Quintuplets { start: u64, stop: u64 },
    Sextuplets { start: u64, stop: u64 },
}

impl CountCall {
    /// The counting primitive for a constellation, over `[start, stop]`.
    pub open spec fn counting(tupling: Tupling, start: u64, stop: u64) -> CountCall {
        match tupling {
            Tupling::One => CountCall::Primes { start, stop },
            Tupling::Two => CountCall::Twins { start, stop },
            Tupling::Three => CountCall::Triplets { start, stop },
            Tupling::Four => CountCall::Quadruplets { start, stop },
            Tupling::Five => CountCall::Quintuplets { start, stop },
            Tupling::Six => CountCall::Sextuplets { start, stop },
        }
    }
}

/// A call of the engine's nth-prime primitive, with the signed index and the
/// number from which the engine counts. The answer is a prime or
/// `PRIMESIEVE_ERROR`.
#[derive(Debug, PartialEq, Eq, Hash, Clone, Copy, Structural)]
pub struct NthCall {
    pub n: i64,
    pub start: u64,
}

/// A call of one of the engine's six printing primitives. Each writes the
/// constellations of its kind in `[start, stop]` to the engine's own output and
/// answers nothing.
#[derive(Debug, PartialEq, Eq, Hash, Clone, Copy, Structural)]
pub enum PrintCall {
    Primes { start: u64, stop: u64 },
    Twins { start: u64, stop: u64 },
    Triplets { start: u64, stop: u64 },
    Quadruplets { start: u64, stop: u64 },
    Quintuplets { start: u64, stop: u64 },
    Sextuplets { start: u64, stop: u64 },
}

impl PrintCall {
    /// The printing primitive for a constellation, over `[start, stop]`.
    pub open spec fn printing(tupling: Tupling, start: u64, stop: u64) -> PrintCall {
        match tupling {
            Tupling::One => PrintCall::Primes { start, stop },
            Tupling::Two => PrintCall::Twins { start, stop },
            Tupling::Three => PrintCall::Triplets { start, stop },
            Tupling::Four => PrintCall::Quadruplets { start, stop },
            Tupling::Five => PrintCall::Quintuplets { start, stop },
            Tupling::Six => PrintCall::Sextuplets { start, stop },
        }
    }
}

/// A call of the engine's bulk generator: every prime in `[start, stop]`, in
/// one buffer whose elements have the type that `type_key` tags.
#[derive(Debug, PartialEq, Eq, Hash, Clone, Copy, Structural)]
pub struct GenerateCall {
    pub start: u64,
    pub stop: u64,
    pub type_key: i32,
}

/// A call of one of the engine's two setters for its process-wide
/// configuration.
#[derive(Debug, PartialEq, Eq, Hash, Clone, Copy, Structural)]
pub enum ConfigCall {
    /// Sets the size of the sieve array, in kibibytes.
    SetSieveSize { sieve_size: i32 },
    /// Sets the number of worker threads; `-1` lets the engine choose.
    SetNumThreads { num_threads: i32 },
}

/// A call of one of the engine's primitives on a cursor. The cursor's storage
/// is the caller's; the call names only what is to be done with it.
#[derive(Debug, PartialEq, Eq, Hash, Clone, Copy, Structural)]
pub enum CursorCall {
    /// Initializes the storage: the cursor then stands before the first prime.
    Init,
    /// Moves the cursor to `start`, with `stop` as a hint of how far the
    /// caller means to go.
    SkipTo { start: u64, stop: u64 },
    /// Steps forward: the answer is the next prime after the cursor.
    NextPrime,
    /// Steps backward: the answer is the next prime before the cursor.
    PrevPrime,
    /// Releases the storage.
    FreeIterator,
}

} // verus!
