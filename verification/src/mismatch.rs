//! The one error of the algebra.

use crate::outcome::compares;
use vstd::prelude::*;

verus! {

/// Two instants that had to agree and did not, in the order in which the
/// operation met them.
#[derive(Debug, Clone, Copy, PartialEq, Eq)]
pub struct TimestampMismatch<S> {
    /// The instant of the left operand (the receiver).
    pub left: S,
    /// The instant of the right operand.
    pub right: S,
}

/// What a comparison of the instants `a` and `b` makes of an operation's
/// result `r`: success exactly where the scalar finds them equal, and
/// otherwise the error that carries both, `a` first.
pub open spec fn checked<V, S: PartialEq>(a: S, b: S, r: Result<V, TimestampMismatch<S>>) -> bool {
    &&& compares(a, b, r is Ok)
    &&& r matches Err(e) ==> e == (TimestampMismatch { left: a, right: b })
}

} // verus!
