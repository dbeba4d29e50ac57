//! Counting the constellations in a range.

use crate::bounds::{clamp, clamped};
use crate::engine::CountCall;
use crate::tupling::{ToTupling, Tupling};
use vstd::prelude::*;

verus! {

/// A query for the number of constellations of one kind whose first prime lies
/// in `[start, stop]`.
#[derive(Debug, PartialEq, Eq, Hash, Clone, Copy, Structural)]
pub struct Count {
    pub tupling: Tupling,
    pub start: u64,
    pub stop: u64,
}

impl Count {
    /// The query for single primes over the engine's whole domain, which ends
    /// at the ceiling `max_stop`.
    pub fn new(max_stop: u64) -> (q: Count)
        ensures
            q == (Count { tupling: Tupling::One, start: 0, stop: max_stop }),
    {
        Count { tupling: Tupling::One, start: 0, stop: max_stop }
    }

    /// Sets the constellation. The value must stand for one.
    pub fn tupling<T: ToTupling>(self, tupling: T) -> (q: Count)
        requires
            tupling.to_tupling_spec().is_some(),
        ensures
            q == (Count { tupling: tupling.to_tupling_spec().unwrap(), ..self }),
    {
        let mut q = self;
        q.tupling = tupling.to_tupling().unwrap();
        q
    }

    /// Sets the lower bound, brought under the ceiling `max_stop`.
    pub fn start(self, start: u64, max_stop: u64) -> (q: Count)
        ensures
            q == (Count { start: clamped(start, max_stop), ..self }),
            q.start <= max_stop,
    {
        let mut q = self;
        q.start = clamp(start, max_stop);
        q
    }

    /// Sets the upper bound, brought under the ceiling `max_stop`.
    pub fn stop(self, stop: u64, max_stop: u64) -> (q: Count)
        ensures
            q == (Count { stop: clamped(stop, max_stop), ..self }),
            q.stop <= max_stop,
    {
        let mut q = self;
        q.stop = clamp(stop, max_stop);
        q
    }

    /// Selects the counting primitive of the query's constellation and hands
    /// back the call. The engine's answer to it is read by `decode`.
    pub fn run(self) -> (call: CountCall)
        ensures
            call == CountCall::counting(self.tupling, self.start, self.stop),
    {
        match self.tupling {
            Tupling::One => CountCall::Primes { start: self.start, stop: self.stop },
            Tupling::Two => CountCall::Twins { start: self.start, stop: self.stop },
            Tupling::Three => CountCall::Triplets { start: self.start, stop: self.stop },
            Tupling::Four => CountCall::Quadruplets { start: self.start, stop: self.stop },
            Tupling::Five => CountCall::Quintuplets { start: self.start, stop: self.stop },
            Tupling::Six => CountCall::Sextuplets { start: self.start, stop: self.stop },
        }
    }
}

/// Two queries ask the engine the same call exactly when they have the same
/// parameters: a query's call is made of its parameters and of nothing else,
/// and it keeps every one of them.
pub proof fn same_parameters_same_call(a: Count, b: Count)
    ensures
        a == b <==> CountCall::counting(a.tupling, a.start, a.stop) == CountCall::counting(
            b.tupling,
            b.start,
            b.stop,
        ),
{
}

} // verus!
