//! Scaling by a scalar factor, the one capability that integration asks of a
//! payload beyond its own addition.

use crate::outcome::muls_to;
use std::ops::Mul;
use vstd::prelude::*;
use vstd::std_specs::ops::MulSpec;

verus! {

/// A payload that can be scaled by a factor of type `S`.
///
/// The three spec functions follow the pattern of the operator
/// specifications in `vstd`: `scale_req` says on which operands `mul` may be
/// called, and an implementation for which `obeys_scale_spec` holds returns
/// exactly `scale_spec`.
pub trait Linear<S> {
    type Output;

    /// Whether `mul` returns `scale_spec` on every operand it accepts.
    spec fn obeys_scale_spec() -> bool;

    /// The operands on which `mul` may be called.
    spec fn scale_req(&self, factor: S) -> bool;

    /// The payload scaled by `factor`.
    spec fn scale_spec(&self, factor: S) -> Self::Output;

    /// Scales the payload by `other`.
    fn mul(&self, other: S) -> (r: Self::Output)
        requires
            self.scale_req(other),
        ensures
            Self::obeys_scale_spec() ==> r == self.scale_spec(other),
    ;
}

/// A scalar scales by its own multiplication.
impl<S: Copy + Mul<Output = S>> Linear<S> for S {
    type Output = S;

    open spec fn obeys_scale_spec() -> bool {
        S::obeys_mul_spec()
    }

    open spec fn scale_req(&self, factor: S) -> bool {
        self.mul_req(factor)
    }

    open spec fn scale_spec(&self, factor: S) -> S {
        self.mul_spec(factor)
    }

    fn mul(&self, other: S) -> (r: S)
        ensures
            muls_to(*self, other, r),
    {
        *self * other
    }
}

} // verus!
