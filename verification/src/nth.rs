//! Finding the nth prime from a starting point.

use crate::bounds::{clamp, clamped};
use crate::cast::u64_to_i64;
use crate::engine::NthCall;
use vstd::prelude::*;

verus! {

/// A query for the nth prime, counted from `start`. The index `n` is signed,
/// and is what the engine is handed.
#[derive(Debug, PartialEq, Eq, Hash, Clone, Copy, Structural)]
pub struct Nth {
    pub n: i64,
    pub start: u64,
}

/// The index that is stored for the count `n`: `n` negated, where `n` can be
/// held as a non-negative `i64`, and nothing where it cannot.
pub open spec fn directed(n: u64) -> Option<i64> {
    if n <= i64::MAX {
        Some((-(n as int)) as i64)
    } else {
        None
    }
}

impl Nth {
    /// The query with index 0, counted from 0.
    pub fn new() -> (q: Nth)
        ensures
            q == (Nth { n: 0, start: 0 }),
    {
        Nth { n: 0, start: 0 }
    }

    fn with_count(self, n: u64) -> (q: Option<Nth>)
        ensures
            q == match directed(n) {
                Some(index) => Some(Nth { n: index, start: self.start }),
                None => None::<Nth>,
            },
    {
        match u64_to_i64(n) {
            Some(magnitude) => {
                if magnitude >= 0 {
                    let mut q = self;
                    q.n = -magnitude;
                    Some(q)
                } else {
                    None
                }
            },
            None => None,
        }
    }

    /// Asks for the `n`th prime after `start`. A count that no non-negative
    /// `i64` holds is refused.
    pub fn after(self, n: u64) -> (q: Option<Nth>)
        ensures
            q == match directed(n) {
                Some(index) => Some(Nth { n: index, start: self.start }),
                None => None::<Nth>,
            },
    {
        self.with_count(n)
    }

    /// Asks for the `n`th prime before `start`. A count that no non-negative
    /// `i64` holds is refused. The index is stored as `after` stores it: how it
    /// is read is the engine's matter.
    pub fn before(self, n: u64) -> (q: Option<Nth>)
        ensures
            q == match directed(n) {
                Some(index) => Some(Nth { n: index, start: self.start }),
                None => None::<Nth>,
            },
    {
        self.with_count(n)
    }

    /// Sets the number to count from, brought under the ceiling `max_stop`.
    pub fn start(self, start: u64, max_stop: u64) -> (q: Nth)
        ensures
            q == (Nth { start: clamped(start, max_stop), ..self }),
            q.start <= max_stop,
    {
        let mut q = self;
        q.start = clamp(start, max_stop);
        q
    }

    /// Hands back the call of the nth-prime primitive with the stored index
    /// and start. The engine's answer to it is read by `decode`.
    pub fn run(self) -> (call: NthCall)
        ensures
            call == (NthCall { n: self.n, start: self.start }),
    {
        NthCall { n: self.n, start: self.start }
    }
}

impl Default for Nth {
    fn default() -> (q: Nth)
        ensures
            q == (Nth { n: 0, start: 0 }),
    {
        Nth::new()
    }
}

} // verus!
