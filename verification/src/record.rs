use vstd::prelude::*;

use crate::errors::CounterError;

verus! {

/// The persisted payload of a counter record: a single unsigned 8-bit
/// field. The arithmetic operations refuse to wrap: incrementing past
/// the largest representable value, or decrementing below zero, leaves
/// the record unchanged and reports the corresponding error.
#[derive(Clone, Copy, Debug, PartialEq, Eq, Structural)]
pub struct Superteam101 {
    /// The counter's current value.
    pub count: u8,
}

/// The record after a set operation: the prior record plays no part in
/// the outcome.
pub open spec fn set_count(prior: Superteam101, value: u8) -> Superteam101 {
    Superteam101 { count: value }
}

impl Superteam101 {
    /// A fresh record, as create leaves it: the counter starts at the
    /// zero-initialized value of its storage.
    pub fn new() -> (r: Superteam101)
        ensures
            r.count == 0,
    {
        Superteam101 { count: 0 }
    }

    /// The counter's current value.
    pub fn count(&self) -> (r: u8)
        ensures
            r == self.count,
    {
        self.count
    }

    /// Adds one to the counter. At the maximum representable value the
    /// operation fails with `ArithmeticOverflow` instead of wrapping,
    /// and the record is left unchanged.
    pub fn increment(&mut self) -> (r: Result<(), CounterError>)
        ensures
            r is Ok <==> old(self).count < 255,
            old(self).count < 255 ==> r == Ok::<(), CounterError>(())
                && final(self).count == old(self).count + 1
                && (*final(self) == Superteam101 { count: (old(self).count + 1) as u8 }),
            old(self).count == 255 ==> r == Err::<(), CounterError>(CounterError::ArithmeticOverflow)
                && *final(self) == *old(self),
    {
        if self.count < 255 {
            self.count = self.count + 1;
            Ok(())
        } else {
            Err(CounterError::ArithmeticOverflow)
        }
    }

    /// Subtracts one from the counter. At zero the operation fails with
    /// `ArithmeticUnderflow` instead of wrapping, and the record is
    /// left unchanged.
    pub fn decrement(&mut self) -> (r: Result<(), CounterError>)
        ensures
            r is Ok <==> old(self).count > 0,
            old(self).count > 0 ==> r == Ok::<(), CounterError>(())
                && final(self).count == old(self).count - 1
                && (*final(self) == Superteam101 { count: (old(self).count - 1) as u8 }),
            old(self).count == 0 ==> r == Err::<(), CounterError>(CounterError::ArithmeticUnderflow)
                && *final(self) == *old(self),
    {
        if self.count > 0 {
            self.count = self.count - 1;
            Ok(())
        } else {
            Err(CounterError::ArithmeticUnderflow)
        }
    }

    /// Overwrites the counter with `value`, whatever it held before.
    /// This never fails.
    pub fn set(&mut self, value: u8)
        ensures
            *final(self) == set_count(*old(self), value),
            final(self).count == value,
    {
        self.count = value;
    }
}

/// Setting the counter is idempotent: a second set to the same value
/// changes nothing, whatever record the first call started from.
pub proof fn lemma_set_idempotent(prior: Superteam101, value: u8)
    ensures
        set_count(set_count(prior, value), value) == set_count(prior, value),
{
}

} // verus!
