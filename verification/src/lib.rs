//! A small algebra of time-tagged values for simulation loops.
//!
//! A [`Timed`] pairs a payload with the simulation instant at which it holds.
//! Two of them combine only where their instants agree: every operation
//! compares the instants first and returns a [`TimestampMismatch`] with both of
//! them where they differ, before it touches a payload.
//!
//! The scalar that counts time and the payload are both type parameters. The
//! contracts therefore speak through the operators' own contracts (see
//! [`outcome`]); [`laws`] holds what follows for scalars and payloads that obey
//! their operators' specifications.

pub mod laws;
pub mod linear;
pub mod mismatch;
pub mod outcome;
pub mod timed;

pub use linear::Linear;
pub use mismatch::TimestampMismatch;
pub use timed::check_times;
pub use timed::Dt;
pub use timed::Sample;
pub use timed::Timed;
