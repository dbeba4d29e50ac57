//! The closed set of element types that the engine can fill a buffer with.

use vstd::prelude::*;

verus! {

/// Implemented for the six element types and for nothing else: no other crate
/// can name this trait, so none can add a type to the set.
pub trait Sealed {

}

impl Sealed for u16 {

}

impl Sealed for u32 {

}

impl Sealed for u64 {

}

impl Sealed for i16 {

}

impl Sealed for i32 {

}

impl Sealed for i64 {

}

} // verus!
