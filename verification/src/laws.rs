//! What follows from the contracts for scalars and payloads that obey the
//! specifications of their operators, as the primitive integers do.

use crate::linear::Linear;
use crate::mismatch::TimestampMismatch;
use crate::timed::advanced;
use crate::timed::check_times;
use crate::timed::integrated;
use crate::timed::lemma_same_sample_same_value;
use crate::timed::stamped_ahead;
use crate::timed::stepped;
use crate::timed::update_finished;
use crate::timed::Dt;
use crate::timed::Sample;
use crate::timed::Timed;
use std::ops::Add;
use std::ops::Div;
use std::ops::Mul;
use std::ops::Sub;
use vstd::prelude::*;
use vstd::std_specs::cmp::PartialEqSpec;
use vstd::std_specs::ops::AddSpec;
use vstd::std_specs::ops::DivSpec;
use vstd::std_specs::ops::MulSpec;
use vstd::std_specs::ops::SubSpec;

verus! {

/// Over a primitive integer scalar, every value that `sim_start` makes holds
/// at zero, whatever its payload.
pub proof fn lemma_sim_start_holds_at_zero<T>(v: T)
    ensures
        forall|r: Timed<T, i8>| #[trigger] call_ensures(Timed::<T, i8>::sim_start, (v,), r) ==> r@.time == 0,
        forall|r: Timed<T, i16>| #[trigger] call_ensures(Timed::<T, i16>::sim_start, (v,), r) ==> r@.time == 0,
        forall|r: Timed<T, i32>| #[trigger] call_ensures(Timed::<T, i32>::sim_start, (v,), r) ==> r@.time == 0,
        forall|r: Timed<T, i64>| #[trigger] call_ensures(Timed::<T, i64>::sim_start, (v,), r) ==> r@.time == 0,
        forall|r: Timed<T, i128>| #[trigger] call_ensures(Timed::<T, i128>::sim_start, (v,), r) ==> r@.time == 0,
        forall|r: Timed<T, isize>| #[trigger] call_ensures(Timed::<T, isize>::sim_start, (v,), r) ==> r@.time == 0,
        forall|r: Timed<T, u8>| #[trigger] call_ensures(Timed::<T, u8>::sim_start, (v,), r) ==> r@.time == 0,
        forall|r: Timed<T, u16>| #[trigger] call_ensures(Timed::<T, u16>::sim_start, (v,), r) ==> r@.time == 0,
        forall|r: Timed<T, u32>| #[trigger] call_ensures(Timed::<T, u32>::sim_start, (v,), r) ==> r@.time == 0,
        forall|r: Timed<T, u64>| #[trigger] call_ensures(Timed::<T, u64>::sim_start, (v,), r) ==> r@.time == 0,
        forall|r: Timed<T, u128>| #[trigger] call_ensures(Timed::<T, u128>::sim_start, (v,), r) ==> r@.time == 0,
        forall|r: Timed<T, usize>| #[trigger] call_ensures(Timed::<T, usize>::sim_start, (v,), r) ==> r@.time == 0,
{
}

/// A step that advances is then in effect from its instant plus its size.
pub proof fn lemma_advance_adds_the_size<S: Add<Output = S>>(dt: Sample<S, S>, next: Sample<S, S>)
    requires
        S::obeys_add_spec(),
        advanced(dt, next),
    ensures
        next.time == dt.time.add_spec(dt.value),
        next.value == dt.value,
{
}

/// On operands of one instant each of the four operations gives a value, and
/// the value holds at that instant.
pub proof fn lemma_result_holds_at_the_operands_instant<
    T: Add<Output = T> + Sub<Output = T> + Mul<Output = T> + Div<Output = T>,
    S: PartialEq + Copy,
>(
    a: Timed<T, S>,
    b: Timed<T, S>,
    sum: Result<Timed<T, S>, TimestampMismatch<S>>,
    difference: Result<Timed<T, S>, TimestampMismatch<S>>,
    product: Result<Timed<T, S>, TimestampMismatch<S>>,
    quotient: Result<Timed<T, S>, TimestampMismatch<S>>,
)
    requires
        S::obeys_eq_spec(),
        a@.time.eq_spec(&b@.time),
        call_ensures(Timed::<T, S>::add, (a, b), sum),
        call_ensures(Timed::<T, S>::sub, (a, b), difference),
        call_ensures(Timed::<T, S>::mul, (a, b), product),
        call_ensures(Timed::<T, S>::div, (a, b), quotient),
    ensures
        sum matches Ok(t) && t@.time == a@.time,
        difference matches Ok(t) && t@.time == a@.time,
        product matches Ok(t) && t@.time == a@.time,
        quotient matches Ok(t) && t@.time == a@.time,
{
}

/// On operands of different instants the four operations and the comparison
/// give the mismatch, with both instants, and nothing else.
pub proof fn lemma_mismatch_is_refused<
    T: Add<Output = T> + Sub<Output = T> + Mul<Output = T> + Div<Output = T> + PartialEq,
    S: PartialEq + Copy,
>(
    a: Timed<T, S>,
    b: Timed<T, S>,
    sum: Result<Timed<T, S>, TimestampMismatch<S>>,
    difference: Result<Timed<T, S>, TimestampMismatch<S>>,
    product: Result<Timed<T, S>, TimestampMismatch<S>>,
    quotient: Result<Timed<T, S>, TimestampMismatch<S>>,
    same: Result<bool, TimestampMismatch<S>>,
)
    requires
        S::obeys_eq_spec(),
        !a@.time.eq_spec(&b@.time),
        call_ensures(Timed::<T, S>::add, (a, b), sum),
        call_ensures(Timed::<T, S>::sub, (a, b), difference),
        call_ensures(Timed::<T, S>::mul, (a, b), product),
        call_ensures(Timed::<T, S>::div, (a, b), quotient),
        call_ensures(Timed::<T, S>::eq, (&a, &b), same),
    ensures
        sum matches Err(e) && e == (TimestampMismatch { left: a@.time, right: b@.time }),
        difference matches Err(e) && e == (TimestampMismatch { left: a@.time, right: b@.time }),
        product matches Err(e) && e == (TimestampMismatch { left: a@.time, right: b@.time }),
        quotient matches Err(e) && e == (TimestampMismatch { left: a@.time, right: b@.time }),
        same matches Err(e) && e == (TimestampMismatch { left: a@.time, right: b@.time }),
{
}

/// `integrate` succeeds exactly where value, derivative and step hold at one
/// instant, and otherwise leaves the value as it was.
pub proof fn lemma_integrate_decides_by_instants<
    T: Add<Output = T> + Linear<S, Output = T>,
    S: PartialEq + Add<Output = S>,
>(
    cur: Timed<T, S>,
    deriv: Sample<T, S>,
    dt: Sample<S, S>,
    next: Timed<T, S>,
    r: Result<(), TimestampMismatch<S>>,
)
    requires
        S::obeys_eq_spec(),
        integrated(cur, deriv, dt, next, r),
    ensures
        r is Ok <==> cur@.time.eq_spec(&deriv.time) && cur@.time.eq_spec(&dt.time),
        r is Err ==> next == cur,
{
}

/// `finished_update` succeeds exactly where the value and the step hold at
/// one instant, and otherwise leaves the value as it was.
pub proof fn lemma_finished_update_decides_by_instants<S: PartialEq + Add<Output = S>>(
    cur: Dt<S>,
    other: Sample<S, S>,
    next: Dt<S>,
    r: Result<(), TimestampMismatch<S>>,
)
    requires
        S::obeys_eq_spec(),
        update_finished(cur, other, next, r),
    ensures
        r is Ok <==> cur@.time.eq_spec(&other.time),
        r matches Err(e) ==> next == cur && e == (TimestampMismatch {
            left: cur@.time,
            right: other.time,
        }),
{
}

/// Two checks of the same instants give the same result.
pub proof fn lemma_check_times_deterministic<T, U, S: PartialEq + Copy>(
    a: Timed<T, S>,
    b: Timed<U, S>,
    r1: Result<(), TimestampMismatch<S>>,
    r2: Result<(), TimestampMismatch<S>>,
)
    requires
        S::obeys_eq_spec(),
        call_ensures(check_times::<T, U, S>, (&a, &b), r1),
        call_ensures(check_times::<T, U, S>, (&a, &b), r2),
    ensures
        r1 == r2,
{
    match (r1, r2) {
        (Ok(u1), Ok(u2)) => {
            assert(u1 == u2);
        },
        _ => {},
    }
}

/// Two sums of the same operands are the same.
pub proof fn lemma_add_deterministic<T: Add<Output = T>, S: PartialEq + Copy>(
    a: Timed<T, S>,
    b: Timed<T, S>,
    r1: Result<Timed<T, S>, TimestampMismatch<S>>,
    r2: Result<Timed<T, S>, TimestampMismatch<S>>,
)
    requires
        S::obeys_eq_spec(),
        T::obeys_add_spec(),
        call_ensures(Timed::<T, S>::add, (a, b), r1),
        call_ensures(Timed::<T, S>::add, (a, b), r2),
    ensures
        r1 == r2,
{
    if let (Ok(t1), Ok(t2)) = (r1, r2) {
        lemma_same_sample_same_value(t1, t2);
    }
}

/// Two differences of the same operands are the same.
pub proof fn lemma_sub_deterministic<T: Sub<Output = T>, S: PartialEq + Copy>(
    a: Timed<T, S>,
    b: Timed<T, S>,
    r1: Result<Timed<T, S>, TimestampMismatch<S>>,
    r2: Result<Timed<T, S>, TimestampMismatch<S>>,
)
    requires
        S::obeys_eq_spec(),
        T::obeys_sub_spec(),
        call_ensures(Timed::<T, S>::sub, (a, b), r1),
        call_ensures(Timed::<T, S>::sub, (a, b), r2),
    ensures
        r1 == r2,
{
    if let (Ok(t1), Ok(t2)) = (r1, r2) {
        lemma_same_sample_same_value(t1, t2);
    }
}

/// Two products of the same operands are the same.
pub proof fn lemma_mul_deterministic<T: Mul<Output = T>, S: PartialEq + Copy>(
    a: Timed<T, S>,
    b: Timed<T, S>,
    r1: Result<Timed<T, S>, TimestampMismatch<S>>,
    r2: Result<Timed<T, S>, TimestampMismatch<S>>,
)
    requires
        S::obeys_eq_spec(),
        T::obeys_mul_spec(),
        call_ensures(Timed::<T, S>::mul, (a, b), r1),
        call_ensures(Timed::<T, S>::mul, (a, b), r2),
    ensures
        r1 == r2,
{
    if let (Ok(t1), Ok(t2)) = (r1, r2) {
        lemma_same_sample_same_value(t1, t2);
    }
}

/// Two quotients of the same operands are the same.
pub proof fn lemma_div_deterministic<T: Div<Output = T>, S: PartialEq + Copy>(
    a: Timed<T, S>,
    b: Timed<T, S>,
    r1: Result<Timed<T, S>, TimestampMismatch<S>>,
    r2: Result<Timed<T, S>, TimestampMismatch<S>>,
)
    requires
        S::obeys_eq_spec(),
        T::obeys_div_spec(),
        call_ensures(Timed::<T, S>::div, (a, b), r1),
        call_ensures(Timed::<T, S>::div, (a, b), r2),
    ensures
        r1 == r2,
{
    if let (Ok(t1), Ok(t2)) = (r1, r2) {
        lemma_same_sample_same_value(t1, t2);
    }
}

/// Two comparisons of the same operands give the same result.
pub proof fn lemma_eq_deterministic<T: PartialEq, S: PartialEq + Copy>(
    a: Timed<T, S>,
    b: Timed<T, S>,
    r1: Result<bool, TimestampMismatch<S>>,
    r2: Result<bool, TimestampMismatch<S>>,
)
    requires
        S::obeys_eq_spec(),
        T::obeys_eq_spec(),
        call_ensures(Timed::<T, S>::eq, (&a, &b), r1),
        call_ensures(Timed::<T, S>::eq, (&a, &b), r2),
    ensures
        r1 == r2,
{
}

/// Two integrations of the same value along the same derivative over the
/// same step end in the same value and the same result.
pub proof fn lemma_integrate_deterministic<
    T: Add<Output = T> + Linear<S, Output = T>,
    S: PartialEq + Add<Output = S>,
>(
    cur: Timed<T, S>,
    deriv: Sample<T, S>,
    dt: Sample<S, S>,
    next1: Timed<T, S>,
    r1: Result<(), TimestampMismatch<S>>,
    next2: Timed<T, S>,
    r2: Result<(), TimestampMismatch<S>>,
)
    requires
        S::obeys_eq_spec(),
        S::obeys_add_spec(),
        T::obeys_add_spec(),
        <T as Linear<S>>::obeys_scale_spec(),
        integrated(cur, deriv, dt, next1, r1),
        integrated(cur, deriv, dt, next2, r2),
    ensures
        r1 == r2,
        next1 == next2,
{
    match (r1, r2) {
        (Ok(u1), Ok(u2)) => {
            assert(u1 == u2);
            lemma_same_sample_same_value(next1, next2);
        },
        _ => {},
    }
}

/// A value integrated over a step holds at the instant that the step reaches
/// when it advances: what was in step stays in step.
pub proof fn lemma_integrate_keeps_pace<
    T: Add<Output = T> + Linear<S, Output = T>,
    S: Add<Output = S>,
>(
    cur: Sample<T, S>,
    deriv: Sample<T, S>,
    dt: Sample<S, S>,
    next: Sample<T, S>,
    dt_next: Sample<S, S>,
)
    requires
        S::obeys_add_spec(),
        cur.time == dt.time,
        stepped(cur, deriv, dt, next),
        advanced(dt, dt_next),
    ensures
        next.time == dt_next.time,
{
}

/// A value stamped ahead by `finished_update` holds at the instant that the
/// step reaches when it advances.
pub proof fn lemma_finished_update_meets_advance<S: Add<Output = S>>(
    cur: Sample<S, S>,
    dt: Sample<S, S>,
    next: Sample<S, S>,
    dt_next: Sample<S, S>,
)
    requires
        S::obeys_add_spec(),
        cur.time == dt.time,
        stamped_ahead(cur, dt, next),
        advanced(dt, dt_next),
    ensures
        next.time == dt_next.time,
{
}

} // verus!
