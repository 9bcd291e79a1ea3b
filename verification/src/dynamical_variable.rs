//! Double-buffered, time-aware values.

use core::ops::Add;
use vstd::prelude::*;
use vstd::std_specs::ops::AddSpec;

verus! {

/// Index of a tick. Ticks are numbered from 1.
pub type TimeStep = usize;

/// The slot that a read at tick `t` observes: the one committed at `t - 1`.
pub open spec fn read_slot(t: TimeStep) -> int {
    (t as int - 1) % 2
}

/// The slot that a write at tick `t` lands in.
pub open spec fn write_slot(t: TimeStep) -> int {
    (t as int) % 2
}

/// The tick that follows `t`.
pub open spec fn next_tick(t: TimeStep) -> TimeStep {
    (t + 1) as usize
}

/// A value with read-previous / write-current semantics.
pub trait DynamicalVariable<T: Copy + Add<Output = T>>: Sized {
    /// The content of one of the two slots (`0` or `1`).
    spec fn slot(&self, parity: int) -> T;

    /// The value committed by the end of tick `current_time - 1`.
    fn dynamical_get(&self, current_time: TimeStep) -> (value: T)
        requires
            current_time >= 1,
        ensures
            value == self.slot(read_slot(current_time)),
    ;

    /// Overwrites the slot of tick `current_time`; the other slot is kept.
    fn dynamical_set(&mut self, value: T, current_time: TimeStep)
        ensures
            final(self).slot(write_slot(current_time)) == value,
            final(self).slot(1 - write_slot(current_time)) == old(self).slot(
                1 - write_slot(current_time),
            ),
    ;

    /// Adds `amount` to the slot of tick `current_time`; the other slot is kept.
    fn dynamical_increment(&mut self, amount: T, current_time: TimeStep)
        requires
            old(self).slot(write_slot(current_time)).add_req(amount),
        ensures
            T::obeys_add_spec() ==> final(self).slot(write_slot(current_time)) == old(self).slot(
                write_slot(current_time),
            ).add_spec(amount),
            final(self).slot(1 - write_slot(current_time)) == old(self).slot(
                1 - write_slot(current_time),
            ),
    ;
}

/// A scalar held in two slots, selected by the parity of the tick.
#[derive(Copy, Clone)]
pub struct DynamicalScalar<T> {
    pub even: T,
    pub odd: T,
}

impl<T: Copy + Add<Output = T>> DynamicalScalar<T> {
    /// A scalar whose two slots both hold `value`.
    pub fn new(value: T) -> (scalar: DynamicalScalar<T>)
        ensures
            scalar == (DynamicalScalar { even: value, odd: value }),
    {
        DynamicalScalar { even: value, odd: value }
    }

    /// The content of slot `parity` (`0` is the even slot, anything else the odd one).
    pub open spec fn at(self, parity: int) -> T {
        if parity == 0 {
            self.even
        } else {
            self.odd
        }
    }

    /// This scalar with slot `parity` replaced by `value`.
    pub open spec fn with_slot(self, parity: int, value: T) -> DynamicalScalar<T> {
        if parity == 0 {
            DynamicalScalar { even: value, odd: self.odd }
        } else {
            DynamicalScalar { even: self.even, odd: value }
        }
    }

    /// What a read at tick `t` returns.
    pub open spec fn committed(self, t: TimeStep) -> T {
        self.at(read_slot(t))
    }

    /// What the slot written at tick `t` holds.
    pub open spec fn pending(self, t: TimeStep) -> T {
        self.at(write_slot(t))
    }

    /// The scalar after `dynamical_set(value, t)`.
    pub open spec fn after_set(self, value: T, t: TimeStep) -> DynamicalScalar<T> {
        self.with_slot(write_slot(t), value)
    }

    /// The scalar after `dynamical_increment(amount, t)`.
    pub open spec fn after_increment(self, amount: T, t: TimeStep) -> DynamicalScalar<T> {
        self.with_slot(write_slot(t), self.pending(t).add_spec(amount))
    }
}

impl<T: Copy + Add<Output = T>> DynamicalVariable<T> for DynamicalScalar<T> {
    open spec fn slot(&self, parity: int) -> T {
        self.at(parity)
    }

    fn dynamical_get(&self, current_time: TimeStep) -> (value: T)
        ensures
            value == self.committed(current_time),
    {
        if (current_time - 1) % 2 == 0 {
            self.even
        } else {
            self.odd
        }
    }

    fn dynamical_set(&mut self, value: T, current_time: TimeStep)
        ensures
            *final(self) == old(self).after_set(value, current_time),
    {
        if current_time % 2 == 0 {
            self.even = value;
        } else {
            self.odd = value;
        }
    }

    fn dynamical_increment(&mut self, amount: T, current_time: TimeStep)
        ensures
            T::obeys_add_spec() ==> *final(self) == old(self).after_increment(amount, current_time),
            final(self).at(1 - write_slot(current_time)) == old(self).at(
                1 - write_slot(current_time),
            ),
    {
        if current_time % 2 == 0 {
            self.even = self.even + amount;
        } else {
            self.odd = self.odd + amount;
        }
    }
}

/// A scalar that was never written reads as its initial value at every tick.
pub proof fn lemma_fresh_reads_initial<T: Copy + Add<Output = T>>(initial: T, t: TimeStep)
    requires
        t >= 1,
    ensures
        (DynamicalScalar { even: initial, odd: initial }).committed(t) == initial,
{
}

/// A write at tick `t` is not seen by a read at `t`, and is what a read at
/// `t + 1` returns.
pub proof fn lemma_set_only_alters_future<T: Copy + Add<Output = T>>(
    scalar: DynamicalScalar<T>,
    value: T,
    t: TimeStep,
)
    requires
        1 <= t < usize::MAX,
    ensures
        scalar.after_set(value, t).committed(t) == scalar.committed(t),
        scalar.after_set(value, t).committed(next_tick(t)) == value,
{
}

/// Two increments at one tick accumulate: the next read is the slot's prior
/// content plus both amounts, and the read at the same tick is untouched.
pub proof fn lemma_increments_accumulate<T: Copy + Add<Output = T>>(
    scalar: DynamicalScalar<T>,
    first: T,
    second: T,
    t: TimeStep,
)
    requires
        1 <= t < usize::MAX,
    ensures
        scalar.after_increment(first, t).after_increment(second, t).committed(next_tick(t))
            == scalar.pending(t).add_spec(first).add_spec(second),
        scalar.after_increment(first, t).after_increment(second, t).committed(t)
            == scalar.committed(t),
{
}

/// For integer scalars the accumulated value is the sum of the slot's prior
/// content and both amounts, as long as neither sum leaves the range of the
/// type.
pub proof fn lemma_integer_increments_add_up(
    scalar: DynamicalScalar<i64>,
    first: i64,
    second: i64,
    t: TimeStep,
)
    requires
        1 <= t < usize::MAX,
        scalar.pending(t).add_req(first),
        scalar.pending(t).add_spec(first).add_req(second),
    ensures
        scalar.after_increment(first, t).after_increment(second, t).committed(next_tick(t))
            == scalar.pending(t) + first + second,
        scalar.after_increment(first, t).after_increment(second, t).committed(t)
            == scalar.committed(t),
{
}

} // verus!
