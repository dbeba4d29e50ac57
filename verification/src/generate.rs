//! Generating every prime in a range into one owned sequence.

use crate::bounds::{clamp, clamped};
use crate::engine::{
    GenerateCall, INT16_PRIMES, INT32_PRIMES, INT64_PRIMES, UINT16_PRIMES, UINT32_PRIMES,
    UINT64_PRIMES,
};
use crate::sealed::Sealed;
use vstd::prelude::*;

verus! {

/// An integer type that the engine can fill a buffer with. There are six, and
/// each has a tag of its own by which the engine is told the type.
pub trait Generable: Copy + Sealed {
    /// The engine's tag for this type.
    spec fn type_key_spec() -> u32;

    fn type_key() -> (key: u32)
        ensures
            key == Self::type_key_spec(),
            INT16_PRIMES <= key <= UINT64_PRIMES,
    ;
}

impl Generable for u16 {
    open spec fn type_key_spec() -> u32 {
        UINT16_PRIMES
    }

    fn type_key() -> (key: u32) {
        UINT16_PRIMES
    }
}

impl Generable for u32 {
    open spec fn type_key_spec() -> u32 {
        UINT32_PRIMES
    }

    fn type_key() -> (key: u32) {
        UINT32_PRIMES
    }
}

impl Generable for u64 {
    open spec fn type_key_spec() -> u32 {
        UINT64_PRIMES
    }

    fn type_key() -> (key: u32) {
        UINT64_PRIMES
    }
}

impl Generable for i16 {
    open spec fn type_key_spec() -> u32 {
        INT16_PRIMES
    }

    fn type_key() -> (key: u32) {
        INT16_PRIMES
    }
}

impl Generable for i32 {
    open spec fn type_key_spec() -> u32 {
        INT32_PRIMES
    }

    fn type_key() -> (key: u32) {
        INT32_PRIMES
    }
}

impl Generable for i64 {
    open spec fn type_key_spec() -> u32 {
        INT64_PRIMES
    }

    fn type_key() -> (key: u32) {
        INT64_PRIMES
    }
}

/// The tags of the six element types, in the order of the tags.
pub open spec fn type_keys() -> Seq<u32> {
    seq![
        <i16 as Generable>::type_key_spec(),
        <u16 as Generable>::type_key_spec(),
        <i32 as Generable>::type_key_spec(),
        <u32 as Generable>::type_key_spec(),
        <i64 as Generable>::type_key_spec(),
        <u64 as Generable>::type_key_spec(),
    ]
}

/// No two element types share a tag, so the tag that a call carries tells
/// which type the buffer was filled for.
pub proof fn type_keys_are_distinct()
    ensures
        forall|i: int, j: int|
            0 <= i < j < type_keys().len() ==> type_keys()[i] < type_keys()[j],
{
}

/// A query for every prime in `[start, stop]`.
#[derive(Debug, PartialEq, Eq, Hash, Clone, Copy, Structural)]
pub struct Generate {
    pub start: u64,
    pub stop: u64,
}

impl Generate {
    /// The query over the engine's whole domain, which ends at the ceiling
    /// `max_stop`.
    pub fn new(max_stop: u64) -> (q: Generate)
        ensures
            q == (Generate { start: 0, stop: max_stop }),
    {
        Generate { start: 0, stop: max_stop }
    }

    /// Sets the lower bound, brought under the ceiling `max_stop`.
    pub fn start(self, start: u64, max_stop: u64) -> (q: Generate)
        ensures
            q == (Generate { start: clamped(start, max_stop), ..self }),
            q.start <= max_stop,
    {
        let mut q = self;
        q.start = clamp(start, max_stop);
        q
    }

    /// Sets the upper bound, brought under the ceiling `max_stop`.
    pub fn stop(self, stop: u64, max_stop: u64) -> (q: Generate)
        ensures
            q == (Generate { stop: clamped(stop, max_stop), ..self }),
            q.stop <= max_stop,
    {
        let mut q = self;
        q.stop = clamp(stop, max_stop);
        q
    }

    /// Hands back the call that has the engine fill a buffer of `N` with the
    /// primes of the range. What the engine filled is taken over by `collect`.
    pub fn run<N: Generable>(self) -> (call: GenerateCall)
        ensures
            call == (GenerateCall {
                start: self.start,
                stop: self.stop,
                type_key: N::type_key_spec() as i32,
            }),
            INT16_PRIMES <= call.type_key <= UINT64_PRIMES,
    {
        GenerateCall { start: self.start, stop: self.stop, type_key: N::type_key() as i32 }
    }

    /// Copies what the engine filled into a sequence of its own: as many
    /// elements as the buffer holds, in the buffer's order. The buffer can be
    /// released as soon as this returns. An empty buffer gives an empty
    /// sequence.
    pub fn collect<N: Generable>(buffer: &[N]) -> (primes: Vec<N>)
        ensures
            primes@ == buffer@,
    {
        let mut primes: Vec<N> = Vec::with_capacity(buffer.len());
        let mut i: usize = 0;
        while i < buffer.len()
            invariant
                i <= buffer.len(),
                primes@ == buffer@.take(i as int),
            decreases buffer.len() - i,
        {
            primes.push(buffer[i]);
            i += 1;
            assert(buffer@.take(i as int) == buffer@.take(i - 1).push(buffer@[i - 1]));
        }
        assert(buffer@.take(i as int) == buffer@);
        primes
    }
}

} // verus!
