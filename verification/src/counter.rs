//! A counter that only moves upward.

use vstd::prelude::*;

verus! {

/// A counter over `u64`.
pub struct Counter {
    value: u64,
}

impl View for Counter {
    type V = nat;

    /// The number the counter stands at.
    closed spec fn view(&self) -> nat {
        self.value as nat
    }
}

impl Counter {
    /// A counter that starts at `value`.
    pub fn new(value: u64) -> (counter: Self)
        ensures
            counter@ == value,
    {
        Self { value }
    }

    /// Moves the counter up by one. A counter that stands at `u64::MAX` cannot
    /// move further.
    pub fn increment(&mut self)
        requires
            old(self)@ < u64::MAX,
        ensures
            final(self)@ == old(self)@ + 1,
    {
        self.value += 1;
    }

    /// The number the counter stands at.
    pub fn get_count(&self) -> (count: u64)
        ensures
            count == self@,
    {
        self.value
    }
}

} // verus!
