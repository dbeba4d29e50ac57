//! A typed query layer for the primesieve engine.
//!
//! The engine sieves; this crate decides what to ask of it and how to read its
//! answers. Every function here is pure: a query builder turns its parameters
//! into the one engine call that answers it, and the engine's raw answer is
//! turned back into an optional result. Whoever owns the engine performs the
//! call between the two.

pub mod bounds;
mod cast;
pub mod count;
pub mod engine;
pub mod generate;
pub mod iter;
pub mod nth;
pub mod num_threads;
pub mod print;
mod sealed;
pub mod sieve_size;
pub mod tupling;

pub use count::Count;
pub use generate::{Generable, Generate};
pub use iter::{Iter, PrimeIterator};
pub use nth::Nth;
pub use print::Print;
pub use tupling::{ToTupling, Tupling};
