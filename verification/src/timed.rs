//! The time-tagged value and its operations.

use crate::linear::Linear;
use crate::mismatch::checked;
use crate::mismatch::TimestampMismatch;
use crate::outcome::adds_to;
use crate::outcome::compares;
use crate::outcome::divs_to;
use crate::outcome::is_origin;
use crate::outcome::muls_to;
use crate::outcome::scales_to;
use crate::outcome::subs_to;
use std::ops::Add;
use std::ops::Div;
use std::ops::Mul;
use std::ops::Sub;
use vstd::prelude::*;
use vstd::std_specs::ops::AddSpec;
use vstd::std_specs::ops::DivSpec;
use vstd::std_specs::ops::MulSpec;
use vstd::std_specs::ops::SubSpec;

verus! {

/// A payload and the instant at which it holds: what a [`Timed`] stands for
/// in contracts.
pub struct Sample<T, S> {
    pub value: T,
    pub time: S,
}

/// A payload of type `T` tagged with the simulation instant, counted in `S`,
/// at which it holds.
///
/// The instant is set when the value is made, at the origin or copied from a
/// reference, and afterwards moves only by a time step.
#[derive(Debug, Clone, Copy)]
pub struct Timed<T, S> {
    value: T,
    time: S,
}

impl<T, S> View for Timed<T, S> {
    type V = Sample<T, S>;

    closed spec fn view(&self) -> Sample<T, S> {
        Sample { value: self.value, time: self.time }
    }
}

/// A `Timed` is nothing but its sample.
pub proof fn lemma_same_sample_same_value<T, S>(a: Timed<T, S>, b: Timed<T, S>)
    requires
        a@ == b@,
    ensures
        a == b,
{
}

impl<T, S> Timed<T, S> {
    /// A value that holds at the instant at which the simulation starts.
    pub fn sim_start(value: T) -> (r: Timed<T, S>) where S: Default
        ensures
            r@.value == value,
            is_origin(r@.time),
    {
        Timed { value, time: S::default() }
    }

    /// A value that holds at the instant of `reference`, whatever payload the
    /// reference carries.
    pub fn new<U>(value: T, reference: &Timed<U, S>) -> (r: Timed<T, S>) where S: Copy
        ensures
            r@.value == value,
            r@.time == reference@.time,
    {
        Timed { value, time: reference.time }
    }

    /// The payload.
    pub fn value(&self) -> (v: &T)
        ensures
            *v == self@.value,
    {
        &self.value
    }

    /// The instant at which the payload holds.
    pub fn time(&self) -> (t: &S)
        ensures
            *t == self@.time,
    {
        &self.time
    }
}

/// Compares the instants of `a` and `b`, exactly and in the scalar's own
/// `==`. Every operation on two values starts here.
pub fn check_times<T, U, S: PartialEq + Copy>(a: &Timed<T, S>, b: &Timed<U, S>) -> (r: Result<
    (),
    TimestampMismatch<S>,
>)
    ensures
        checked(a@.time, b@.time, r),
{
    if a.time == b.time {
        Ok(())
    } else {
        Err(TimestampMismatch { left: a.time, right: b.time })
    }
}

impl<T, S: PartialEq + Copy> Timed<T, S> {
    /// The sum of two values that hold at the same instant, at that instant.
    pub fn add(self, other: Timed<T, S>) -> (r: Result<Timed<T, S>, TimestampMismatch<S>>) where
        T: Add<Output = T>,

        requires
            compares(self@.time, other@.time, true) ==> self@.value.add_req(other@.value),
        ensures
            checked(self@.time, other@.time, r),
            r matches Ok(t) ==> t@.time == self@.time && adds_to(
                self@.value,
                other@.value,
                t@.value,
            ),
    {
        check_times(&self, &other)?;
        Ok(Timed { value: self.value + other.value, time: self.time })
    }

    /// The difference of two values that hold at the same instant, at that
    /// instant.
    pub fn sub(self, other: Timed<T, S>) -> (r: Result<Timed<T, S>, TimestampMismatch<S>>) where
        T: Sub<Output = T>,

        requires
            compares(self@.time, other@.time, true) ==> self@.value.sub_req(other@.value),
        ensures
            checked(self@.time, other@.time, r),
            r matches Ok(t) ==> t@.time == self@.time && subs_to(
                self@.value,
                other@.value,
                t@.value,
            ),
    {
        check_times(&self, &other)?;
        Ok(Timed { value: self.value - other.value, time: self.time })
    }

    /// The product of two values that hold at the same instant, at that
    /// instant.
    pub fn mul(self, other: Timed<T, S>) -> (r: Result<Timed<T, S>, TimestampMismatch<S>>) where
        T: Mul<Output = T>,

        requires
            compares(self@.time, other@.time, true) ==> self@.value.mul_req(other@.value),
        ensures
            checked(self@.time, other@.time, r),
            r matches Ok(t) ==> t@.time == self@.time && muls_to(
                self@.value,
                other@.value,
                t@.value,
            ),
    {
        check_times(&self, &other)?;
        Ok(Timed { value: self.value * other.value, time: self.time })
    }

    /// The quotient of two values that hold at the same instant, at that
    /// instant. What a zero divisor gives is the payload's own affair.
    pub fn div(self, other: Timed<T, S>) -> (r: Result<Timed<T, S>, TimestampMismatch<S>>) where
        T: Div<Output = T>,

        requires
            compares(self@.time, other@.time, true) ==> self@.value.div_req(other@.value),
        ensures
            checked(self@.time, other@.time, r),
            r matches Ok(t) ==> t@.time == self@.time && divs_to(
                self@.value,
                other@.value,
                t@.value,
            ),
    {
        check_times(&self, &other)?;
        Ok(Timed { value: self.value / other.value, time: self.time })
    }

    /// Whether two values that hold at the same instant carry equal payloads.
    /// Values of different instants are not unequal: comparing them is an
    /// error.
    pub fn eq(&self, other: &Timed<T, S>) -> (r: Result<bool, TimestampMismatch<S>>) where
        T: PartialEq,

        ensures
            checked(self@.time, other@.time, r),
            r matches Ok(same) ==> compares(self@.value, other@.value, same),
    {
        check_times(self, other)?;
        Ok(self.value == other.value)
    }
}

/// A time step: its payload is the step's size, and its instant is the one
/// from which that size is in effect.
pub type Dt<S> = Timed<S, S>;

/// Whether one Euler step of `cur` along `deriv` over `dt` is within what the
/// payload's and the scalar's operators accept: the scaling, the addition of
/// whatever the scaling gives, and the addition of the step to the instant.
pub open spec fn step_defined<T: Add<Output = T> + Linear<S, Output = T>, S: Add<Output = S>>(
    cur: Sample<T, S>,
    deriv: Sample<T, S>,
    dt: Sample<S, S>,
) -> bool {
    &&& deriv.value.scale_req(dt.value)
    &&& forall|inc: T| #[trigger]
        scales_to(deriv.value, dt.value, inc) ==> cur.value.add_req(inc)
    &&& cur.time.add_req(dt.value)
}

/// `next` is `cur` after one Euler step along `deriv` over `dt`: the payload
/// has grown by the derivative scaled by the step's size, and the instant by
/// that size.
pub open spec fn stepped<T: Add<Output = T> + Linear<S, Output = T>, S: Add<Output = S>>(
    cur: Sample<T, S>,
    deriv: Sample<T, S>,
    dt: Sample<S, S>,
    next: Sample<T, S>,
) -> bool {
    &&& exists|inc: T| #[trigger]
        scales_to(deriv.value, dt.value, inc) && adds_to(cur.value, inc, next.value)
    &&& adds_to(cur.time, dt.value, next.time)
    &&& <T as Linear<S>>::obeys_scale_spec() && T::obeys_add_spec() ==> next.value
        == cur.value.add_spec(deriv.value.scale_spec(dt.value))
}

/// `e` is the error of an operation that compares the instant `t` first with
/// `first` and then with `second`: the first pair that differs, in that order.
pub open spec fn first_mismatch<S: PartialEq>(
    t: S,
    first: S,
    second: S,
    e: TimestampMismatch<S>,
) -> bool {
    ||| compares(t, first, false) && e == (TimestampMismatch { left: t, right: first })
    ||| compares(t, first, true) && compares(t, second, false) && e == (TimestampMismatch {
        left: t,
        right: second,
    })
}

/// What `integrate` makes of `cur` along `deriv` over `dt`: `next` and the
/// result `r`. Where all three hold at the same instant, `next` is `cur` one
/// step on; otherwise `next` is `cur` untouched and `r` the first mismatch.
pub open spec fn integrated<
    T: Add<Output = T> + Linear<S, Output = T>,
    S: PartialEq + Add<Output = S>,
>(
    cur: Timed<T, S>,
    deriv: Sample<T, S>,
    dt: Sample<S, S>,
    next: Timed<T, S>,
    r: Result<(), TimestampMismatch<S>>,
) -> bool {
    match r {
        Ok(_) => {
            &&& compares(cur@.time, deriv.time, true)
            &&& compares(cur@.time, dt.time, true)
            &&& stepped(cur@, deriv, dt, next@)
        },
        Err(e) => {
            &&& next == cur
            &&& first_mismatch(cur@.time, deriv.time, dt.time, e)
        },
    }
}

impl<T, S: PartialEq + Copy> Timed<T, S> {
    /// Moves the value one Euler step forward: the payload along `deriv`, the
    /// instant by the size of `dt`. All three must hold at the same instant;
    /// where they do not, nothing is changed.
    pub fn integrate(&mut self, deriv: &Timed<T, S>, dt: &Dt<S>) -> (r: Result<
        (),
        TimestampMismatch<S>,
    >) where
        T: Add<Output = T> + Mul<Output = T> + Linear<S, Output = T> + Copy,
        S: Add<Output = S>,

        requires
            compares(old(self)@.time, deriv@.time, true) && compares(
                old(self)@.time,
                dt@.time,
                true,
            ) ==> step_defined(old(self)@, deriv@, dt@),
        ensures
            integrated(*old(self), deriv@, dt@, *final(self), r),
    {
        check_times(self, deriv)?;
        check_times(self, dt)?;
        let inc = Linear::mul(&deriv.value, dt.value);
        // names the increment as a result of the scaling, for `step_defined` and `stepped`
        assert(scales_to(deriv@.value, dt@.value, inc));
        self.value = self.value + inc;
        self.time = self.time + dt.value;
        Ok(())
    }
}

/// `next` is the step `dt` after it advanced: the same size, in effect from
/// the instant that lies one such size later.
pub open spec fn advanced<S: Add<Output = S>>(dt: Sample<S, S>, next: Sample<S, S>) -> bool {
    &&& next.value == dt.value
    &&& adds_to(dt.time, dt.value, next.time)
}

/// `next` is `cur` stamped ahead by the size of `dt`: the same payload, as of
/// the end of the step that `dt` is about to take.
pub open spec fn stamped_ahead<S: Add<Output = S>>(
    cur: Sample<S, S>,
    dt: Sample<S, S>,
    next: Sample<S, S>,
) -> bool {
    &&& next.value == cur.value
    &&& adds_to(cur.time, dt.value, next.time)
}

/// What `finished_update` makes of `cur` against `other`: `next` and the
/// result `r`. Where the two hold at the same instant, `next` is `cur`
/// stamped ahead; otherwise `next` is `cur` untouched and `r` the mismatch.
pub open spec fn update_finished<S: PartialEq + Add<Output = S>>(
    cur: Dt<S>,
    other: Sample<S, S>,
    next: Dt<S>,
    r: Result<(), TimestampMismatch<S>>,
) -> bool {
    &&& checked(cur@.time, other.time, r)
    &&& r is Ok ==> stamped_ahead(cur@, other, next@)
    &&& r is Err ==> next == cur
}

impl<S: Add<Output = S> + Copy> Dt<S> {
    /// Moves the step's own instant forward by its size: once per tick, after
    /// everything has been integrated over it.
    pub fn advance(&mut self)
        requires
            old(self)@.time.add_req(old(self)@.value),
        ensures
            advanced(old(self)@, final(self)@),
    {
        self.time = self.time + self.value;
    }

    /// Moves the instant forward by the size of `other`, which must hold at
    /// the same instant: the value then holds as of the end of the step that
    /// is about to be taken. Where the instants differ, nothing is changed.
    pub fn finished_update(&mut self, other: &Dt<S>) -> (r: Result<(), TimestampMismatch<S>>) where
        S: PartialEq,

        requires
            compares(old(self)@.time, other@.time, true) ==> old(self)@.time.add_req(other@.value),
        ensures
            update_finished(*old(self), other@, *final(self), r),
    {
        check_times(self, other)?;
        self.time = self.time + other.value;
        Ok(())
    }
}

} // verus!
