//! Printing the constellations in a range.

use crate::bounds::{clamp, clamped};
use crate::engine::PrintCall;
use crate::tupling::{ToTupling, Tupling};
use vstd::prelude::*;

verus! {

/// A request to print the constellations of one kind in `[start, stop]`.
#[derive(Debug, PartialEq, Eq, Hash, Clone, Copy, Structural)]
pub struct Print {
    pub tupling: Tupling,
    pub start: u64,
    pub stop: u64,
}

impl Print {
    /// The request for single primes over the engine's whole domain, which
    /// ends at the ceiling `max_stop`.
    pub fn new(max_stop: u64) -> (q: Print)
        ensures
            q == (Print { tupling: Tupling::One, start: 0, stop: max_stop }),
    {
        Print { tupling: Tupling::One, start: 0, stop: max_stop }
    }

    /// Sets the constellation, or refuses a value that stands for none.
    pub fn tupling<T: ToTupling>(self, tupling: T) -> (q: Option<Print>)
        ensures
            q == match tupling.to_tupling_spec() {
                Some(t) => Some(Print { tupling: t, ..self }),
                None => None::<Print>,
            },
    {
        match tupling.to_tupling() {
            Some(t) => {
                let mut q = self;
                q.tupling = t;
                Some(q)
            },
            None => None,
        }
    }

    /// Sets the lower bound, brought under the ceiling `max_stop`.
    pub fn start(self, start: u64, max_stop: u64) -> (q: Print)
        ensures
            q == (Print { start: clamped(start, max_stop), ..self }),
            q.start <= max_stop,
    {
        let mut q = self;
        q.start = clamp(start, max_stop);
        q
    }

    /// Sets the upper bound, brought under the ceiling `max_stop`.
    pub fn stop(self, stop: u64, max_stop: u64) -> (q: Print)
        ensures
            q == (Print { stop: clamped(stop, max_stop), ..self }),
            q.stop <= max_stop,
    {
        let mut q = self;
        q.stop = clamp(stop, max_stop);
        q
    }

    /// Selects the printing primitive of the request's constellation and hands
    /// back the call. The engine answers nothing to it.
    pub fn execute(self) -> (call: PrintCall)
        ensures
            call == PrintCall::printing(self.tupling, self.start, self.stop),
    {
        match self.tupling {
            Tupling::One => PrintCall::Primes { start: self.start, stop: self.stop },
            Tupling::Two => PrintCall::Twins { start: self.start, stop: self.stop },
            Tupling::Three => PrintCall::Triplets { start: self.start, stop: self.stop },
            Tupling::Four => PrintCall::Quadruplets { start: self.start, stop: self.stop },
            Tupling::Five => PrintCall::Quintuplets { start: self.start, stop: self.stop },
            Tupling::Six => PrintCall::Sextuplets { start: self.start, stop: self.stop },
        }
    }
}

} // verus!
