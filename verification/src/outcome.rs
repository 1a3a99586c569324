//! What the scalar's and the payload's own operators give on given operands.
//!
//! Nothing in this crate knows how a scalar or a payload computes. Each
//! predicate here relates operands to a result through the contract of the
//! operator itself, and names the closed form where the type declares that it
//! obeys its operator's specification, as every primitive integer does.

use crate::linear::Linear;
use std::ops::Add;
use std::ops::Div;
use std::ops::Mul;
use std::ops::Sub;
use vstd::prelude::*;
use vstd::std_specs::cmp::PartialEqSpec;
use vstd::std_specs::ops::AddSpec;
use vstd::std_specs::ops::DivSpec;
use vstd::std_specs::ops::MulSpec;
use vstd::std_specs::ops::SubSpec;

verus! {

/// `verdict` is an answer of `a == b` in the type's own comparison. No
/// tolerance enters: where the type obeys its specification the answer is
/// `a.eq_spec(&b)`, which is plain equality on the primitive integers.
pub open spec fn compares<A: PartialEq>(a: A, b: A, verdict: bool) -> bool {
    &&& call_ensures(<A as PartialEq>::eq, (&a, &b), verdict)
    &&& A::obeys_eq_spec() ==> verdict == a.eq_spec(&b)
}

/// `t` is a value that the scalar's `Default` gives: the instant at which a
/// simulation starts. It is zero on every numeric primitive.
pub open spec fn is_origin<S: Default>(t: S) -> bool {
    call_ensures(S::default, (), t)
}

/// `out` is a result of `a + b` in the type's own addition.
pub open spec fn adds_to<A: Add<Output = A>>(a: A, b: A, out: A) -> bool {
    &&& call_ensures(<A as Add>::add, (a, b), out)
    &&& A::obeys_add_spec() ==> out == a.add_spec(b)
}

/// `out` is a result of `a - b` in the type's own subtraction.
pub open spec fn subs_to<A: Sub<Output = A>>(a: A, b: A, out: A) -> bool {
    &&& call_ensures(<A as Sub>::sub, (a, b), out)
    &&& A::obeys_sub_spec() ==> out == a.sub_spec(b)
}

/// `out` is a result of `a * b` in the type's own multiplication.
pub open spec fn muls_to<A: Mul<Output = A>>(a: A, b: A, out: A) -> bool {
    &&& call_ensures(<A as Mul>::mul, (a, b), out)
    &&& A::obeys_mul_spec() ==> out == a.mul_spec(b)
}

/// `out` is a result of `a / b` in the type's own division.
pub open spec fn divs_to<A: Div<Output = A>>(a: A, b: A, out: A) -> bool {
    &&& call_ensures(<A as Div>::div, (a, b), out)
    &&& A::obeys_div_spec() ==> out == a.div_spec(b)
}

/// `out` is a result of scaling `v` by `factor`.
pub open spec fn scales_to<A: Linear<S>, S>(v: A, factor: S, out: A::Output) -> bool {
    &&& call_ensures(<A as Linear<S>>::mul, (&v, factor), out)
    &&& <A as Linear<S>>::obeys_scale_spec() ==> out == v.scale_spec(factor)
}

} // verus!
