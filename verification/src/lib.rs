//! Concurrency-flavoured value containers and partial results.
//!
//! The heart of the crate is a family of swappable value containers
//! ([`atomic_value`]) that hold zero or one heap value and replace it in a
//! single step, together with an object pool ([`pool`]) built on the same
//! slot discipline.  Around them stand [`presult::PResult`], a three-way
//! result type for partial successes, the decision logic of partial-I/O
//! loops ([`pio`]), and small helpers: container builders ([`other`]), a
//! value-mapping combinator ([`map_value`]) and precondition-checked
//! unwrapping ([`die`]).

pub mod atomic_value;
pub mod pool;
pub mod presult;
pub mod map_value;
pub mod pio;
pub mod die;
pub mod other;

pub use atomic_value::Ordering;
