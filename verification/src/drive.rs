//! The erased capability: a resumable computation that can be advanced one
//! step at a time.
//!
//! A native vtable — a record of raw function pointers filled in once per
//! concrete type — cannot be expressed in verified code, so the record is
//! rendered as this trait: each implementation is the fixed operation set of
//! one concrete type, shared by all its instances, and a handle dispatches
//! through it. The record's `destroy` entry is the concrete type's own drop
//! glue, which a handle runs when it is destroyed; its `layout` entry is
//! carried alongside the value by the constructor that placed it.
//!
//! The step behaviour of an implementation is pinned by two spec functions,
//! so that everything a handle reports is determined by the value it holds —
//! never by where that value is stored.

use vstd::prelude::*;
use crate::progress::Progress;

verus! {

/// A computation that is advanced by repeated single, synchronous steps.
pub trait Drive: Sized {
    /// The type of the finished value.
    type Output;

    /// The state after one more step.
    spec fn step_to(self) -> Self;

    /// What one more step reports.
    spec fn step_out(self) -> Progress<Self::Output>;

    /// An upper bound on the steps the computation can spend pending.
    spec fn fuel(self) -> nat;

    /// Every pending step strictly consumes fuel, so repeated stepping
    /// reaches a ready report.
    proof fn lemma_fuel_decreases(self)
        ensures
            self.step_out() matches Progress::Pending ==> self.step_to().fuel() < self.fuel(),
    ;

    /// Advances the computation by one step, in place.
    fn drive(&mut self) -> (p: Progress<Self::Output>)
        ensures
            *final(self) == old(self).step_to(),
            p == old(self).step_out(),
    ;
}

/// The value a computation eventually yields under repeated stepping — the
/// drive-to-completion semantics every owning handle exposes.
pub open spec fn eventual_value<T: Drive>(t: T) -> T::Output
    decreases t.fuel(),
    via eventual_value_decreases::<T>
{
    match t.step_out() {
        Progress::Ready(v) => v,
        Progress::Pending => eventual_value(t.step_to()),
    }
}

#[via_fn]
proof fn eventual_value_decreases<T: Drive>(t: T) {
    t.lemma_fuel_decreases();
}

/// A sample computation: reports `Pending` for `left` steps, then reports
/// `Ready(value)` on every further step.
#[derive(Clone, Copy, PartialEq, Eq, Structural, Debug)]
pub struct Countdown {
    pub left: u64,
    pub value: u64,
}

impl Countdown {
    /// A countdown that is pending for `left` steps and then yields `value`.
    pub fn new(left: u64, value: u64) -> (c: Countdown)
        ensures
            c == (Countdown { left, value }),
    {
        Countdown { left, value }
    }
}

impl Drive for Countdown {
    type Output = u64;

    open spec fn step_to(self) -> Countdown {
        if self.left > 0 {
            Countdown { left: (self.left - 1) as u64, value: self.value }
        } else {
            self
        }
    }

    open spec fn step_out(self) -> Progress<u64> {
        if self.left > 0 {
            Progress::Pending
        } else {
            Progress::Ready(self.value)
        }
    }

    open spec fn fuel(self) -> nat {
        self.left as nat
    }

    proof fn lemma_fuel_decreases(self) {
    }

    fn drive(&mut self) -> (p: Progress<u64>) {
        if self.left > 0 {
            self.left = self.left - 1;
            Progress::Pending
        } else {
            Progress::Ready(self.value)
        }
    }
}

/// A countdown eventually yields exactly the value it was built over,
/// however many pending steps it spends first.
pub proof fn lemma_countdown_eventual(c: Countdown)
    ensures
        eventual_value(c) == c.value,
    decreases c.left,
{
    if c.left > 0 {
        lemma_countdown_eventual(c.step_to());
    }
}

} // verus!
