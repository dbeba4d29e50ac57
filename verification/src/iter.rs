//! The life of an engine cursor.
//!
//! A cursor's storage belongs to the engine from the call that initializes it
//! to the call that releases it, and to nobody after that. The handles here
//! keep count of where a cursor stands in that life and let a call through only
//! where the engine can take it.

use crate::engine::CursorCall;
use vstd::prelude::*;

verus! {

/// Where a cursor stands in its life.
#[derive(Debug, PartialEq, Eq, Hash, Clone, Copy, Structural)]
pub enum Stage {
    /// The storage is there, and the engine has not seen it yet.
    Uninitialized,
    /// The engine has initialized the storage and can step through it.
    Ready,
    /// The engine has released the storage. Nothing comes after this.
    Released,
}

/// The stage that a cursor in `stage` reaches by `call`, or nothing where the
/// engine cannot take that call there.
pub open spec fn step(stage: Stage, call: CursorCall) -> Option<Stage> {
    match stage {
        Stage::Uninitialized => match call {
            CursorCall::Init => Some(Stage::Ready),
            _ => None,
        },
        Stage::Ready => match call {
            CursorCall::Init => None,
            CursorCall::FreeIterator => Some(Stage::Released),
            _ => Some(Stage::Ready),
        },
        Stage::Released => None,
    }
}

/// Of the calls that are asked for in order on a cursor in `stage`, those that
/// are let through to the engine, in the same order.
pub open spec fn admitted(stage: Stage, calls: Seq<CursorCall>) -> Seq<CursorCall>
    decreases calls.len(),
{
    if calls.len() == 0 {
        Seq::empty()
    } else {
        match step(stage, calls[0]) {
            Some(next) => seq![calls[0]] + admitted(next, calls.skip(1)),
            None => admitted(stage, calls.skip(1)),
        }
    }
}

/// A released cursor takes no call, whichever is asked for.
pub proof fn released_takes_no_call(call: CursorCall)
    ensures
        step(Stage::Released, call) is None,
{
}

/// A cursor is released at most once: the release that is let through leaves
/// it in a stage where the next one is refused.
pub proof fn released_only_once(stage: Stage)
    ensures
        step(stage, CursorCall::FreeIterator) matches Some(next) ==> {
            step(next, CursorCall::FreeIterator) is None
        },
{
}

/// Whatever is asked of a released cursor, and in whatever order, nothing
/// reaches the engine.
pub proof fn released_admits_nothing(calls: Seq<CursorCall>)
    ensures
        admitted(Stage::Released, calls).len() == 0,
    decreases calls.len(),
{
    if calls.len() > 0 {
        released_admits_nothing(calls.skip(1));
    }
}

/// Whatever is asked of a ready cursor, the engine is not asked to initialize
/// it again, and a release is the last call that reaches the engine.
pub proof fn ready_admits_steps_then_release(calls: Seq<CursorCall>)
    ensures
        ({
            let made = admitted(Stage::Ready, calls);
            &&& forall|i: int| 0 <= i < made.len() ==> made[i] != CursorCall::Init
            &&& forall|i: int|
                0 <= i < made.len() && made[i] == CursorCall::FreeIterator ==> i == made.len() - 1
        }),
    decreases calls.len(),
{
    if calls.len() > 0 {
        let rest = calls.skip(1);
        match step(Stage::Ready, calls[0]) {
            Some(Stage::Ready) => {
                ready_admits_steps_then_release(rest);
            },
            Some(_) => {
                released_admits_nothing(rest);
            },
            None => {
                ready_admits_steps_then_release(rest);
            },
        }
    }
}

/// Whatever is asked of a fresh cursor, and in whatever order: the first call
/// that reaches the engine initializes the cursor, no later one does, and a
/// release is the last call that reaches the engine. So the engine never steps
/// through storage that it has not initialized or has released, and never
/// releases storage twice.
pub proof fn fresh_admits_init_steps_release(calls: Seq<CursorCall>)
    ensures
        ({
            let made = admitted(Stage::Uninitialized, calls);
            &&& forall|i: int| 0 <= i < made.len() ==> (made[i] == CursorCall::Init <==> i == 0)
            &&& forall|i: int|
                0 <= i < made.len() && made[i] == CursorCall::FreeIterator ==> i == made.len() - 1
        }),
    decreases calls.len(),
{
    if calls.len() > 0 {
        let rest = calls.skip(1);
        match step(Stage::Uninitialized, calls[0]) {
            Some(_) => {
                ready_admits_steps_then_release(rest);
            },
            None => {
                fresh_admits_init_steps_release(rest);
            },
        }
    }
}

/// The handle of one engine cursor. It is not `Clone`: a cursor has one owner.
#[derive(Debug)]
pub struct Iter {
    stage: Stage,
}

impl View for Iter {
    type V = Stage;

    closed spec fn view(&self) -> Stage {
        self.stage
    }
}

impl Iter {
    /// The handle of a cursor whose storage the engine has not seen yet.
    pub fn new() -> (it: Iter)
        ensures
            it@ == Stage::Uninitialized,
    {
        Iter { stage: Stage::Uninitialized }
    }

    /// Where the cursor stands.
    pub fn stage(&self) -> (stage: Stage)
        ensures
            stage == self@,
    {
        self.stage
    }

    /// Asks for `call`. Where the engine can take it at this stage, the call
    /// is handed back to be made and the cursor moves on; where it cannot,
    /// nothing is handed back and the cursor stays where it is.
    pub fn request(&mut self, call: CursorCall) -> (granted: Option<CursorCall>)
        ensures
            match step(old(self)@, call) {
                Some(next) => granted == Some(call) && final(self)@ == next,
                None => granted is None && final(self)@ == old(self)@,
            },
    {
        match self.stage {
            Stage::Uninitialized => match call {
                CursorCall::Init => {
                    self.stage = Stage::Ready;
                    Some(call)
                },
                _ => None,
            },
            Stage::Ready => match call {
                CursorCall::Init => None,
                CursorCall::FreeIterator => {
                    self.stage = Stage::Released;
                    Some(call)
                },
                _ => Some(call),
            },
            Stage::Released => None,
        }
    }

    /// Asks for the cursor to be initialized: granted for a fresh cursor only.
    pub fn init(&mut self) -> (granted: Option<CursorCall>)
        ensures
            old(self)@ == Stage::Uninitialized ==> {
                &&& granted == Some(CursorCall::Init)
                &&& final(self)@ == Stage::Ready
            },
            old(self)@ != Stage::Uninitialized ==> {
                &&& granted is None
                &&& final(self)@ == old(self)@
            },
    {
        self.request(CursorCall::Init)
    }

    /// Asks for the cursor to be moved to `start`: granted for a ready cursor
    /// only.
    pub fn skipto(&mut self, start: u64, stop: u64) -> (granted: Option<CursorCall>)
        ensures
            old(self)@ == Stage::Ready ==> granted == Some(CursorCall::SkipTo { start, stop }),
            old(self)@ != Stage::Ready ==> granted is None,
            final(self)@ == old(self)@,
    {
        self.request(CursorCall::SkipTo { start, stop })
    }

    /// Asks for the next prime after the cursor: granted for a ready cursor
    /// only.
    pub fn next(&mut self) -> (granted: Option<CursorCall>)
        ensures
            old(self)@ == Stage::Ready ==> granted == Some(CursorCall::NextPrime),
            old(self)@ != Stage::Ready ==> granted is None,
            final(self)@ == old(self)@,
    {
        self.request(CursorCall::NextPrime)
    }

    /// Asks for the next prime before the cursor: granted for a ready cursor
    /// only.
    pub fn prev(&mut self) -> (granted: Option<CursorCall>)
        ensures
            old(self)@ == Stage::Ready ==> granted == Some(CursorCall::PrevPrime),
            old(self)@ != Stage::Ready ==> granted is None,
            final(self)@ == old(self)@,
    {
        self.request(CursorCall::PrevPrime)
    }

    /// Asks for the cursor to be released: granted for a ready cursor only,
    /// and so at most once.
    pub fn release(&mut self) -> (granted: Option<CursorCall>)
        ensures
            old(self)@ == Stage::Ready ==> {
                &&& granted == Some(CursorCall::FreeIterator)
                &&& final(self)@ == Stage::Released
            },
            old(self)@ != Stage::Ready ==> {
                &&& granted is None
                &&& final(self)@ == old(self)@
            },
    {
        self.request(CursorCall::FreeIterator)
    }
}

impl Default for Iter {
    fn default() -> (it: Iter)
        ensures
            it@ == Stage::Uninitialized,
    {
        Iter::new()
    }
}

/// The handle of a cursor that is made ready in one go and stepped forward
/// from a chosen start.
#[derive(Debug)]
pub struct PrimeIterator {
    it: Iter,
}

impl View for PrimeIterator {
    type V = Stage;

    closed spec fn view(&self) -> Stage {
        self.it@
    }
}

impl PrimeIterator {
    /// The handle of a ready cursor, with the two calls that make it so, to be
    /// made in this order: the one that initializes the cursor, and the one
    /// that moves it to `start`. The hint says how far the caller means to go;
    /// without one it is the ceiling `max_stop`.
    pub fn new(start: u64, stop_hint: Option<u64>, max_stop: u64) -> (made: (
        PrimeIterator,
        Vec<CursorCall>,
    ))
        ensures
            made.0@ == Stage::Ready,
            made.1@ == seq![
                CursorCall::Init,
                CursorCall::SkipTo {
                    start,
                    stop: match stop_hint {
                        Some(stop) => stop,
                        None => max_stop,
                    },
                },
            ],
    {
        let stop = match stop_hint {
            Some(stop) => stop,
            None => max_stop,
        };
        let mut it = Iter::new();
        let mut calls: Vec<CursorCall> = Vec::new();
        if let Some(call) = it.init() {
            calls.push(call);
        }
        if let Some(call) = it.skipto(start, stop) {
            calls.push(call);
        }
        (PrimeIterator { it }, calls)
    }

    /// Where the cursor stands.
    pub fn stage(&self) -> (stage: Stage)
        ensures
            stage == self@,
    {
        self.it.stage()
    }

    /// Asks for the next prime after the cursor: granted until the cursor is
    /// released.
    pub fn next(&mut self) -> (granted: Option<CursorCall>)
        ensures
            old(self)@ == Stage::Ready ==> granted == Some(CursorCall::NextPrime),
            old(self)@ != Stage::Ready ==> granted is None,
            final(self)@ == old(self)@,
    {
        self.it.next()
    }

    /// Asks for the cursor to be released: granted once.
    pub fn release(&mut self) -> (granted: Option<CursorCall>)
        ensures
            old(self)@ == Stage::Ready ==> {
                &&& granted == Some(CursorCall::FreeIterator)
                &&& final(self)@ == Stage::Released
            },
            old(self)@ != Stage::Ready ==> {
                &&& granted is None
                &&& final(self)@ == old(self)@
            },
    {
        self.it.release()
    }
}

} // verus!
