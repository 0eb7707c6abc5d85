//! The two counters whose values feed delayed loads, and what a load yields.
use vstd::prelude::*;

verus! {

/// Seconds that the load of the first counter waits before it yields.
pub const FIRST_DELAY_SECS: u64 = 1;

/// Seconds that the load of the second counter waits before it yields.
pub const SECOND_DELAY_SECS: u64 = 4;

/// The factor a load applies to the value it was started with.
pub const LOAD_FACTOR: i32 = 20;

/// The two counters: the first steps by one, the second by two.
#[derive(Debug, Clone, Copy, PartialEq, Eq)]
pub struct CounterState {
    pub count: i32,
    pub count2: i32,
}

impl CounterState {
    /// Whether one more press of the increment button stays within `i32`.
    pub open spec fn spec_can_increment(self) -> bool {
        self.count < i32::MAX && self.count2 <= i32::MAX - 2
    }

    /// The counters before any press: 1 and 0.
    pub fn new() -> (r: CounterState)
        ensures
            r.count == 1,
            r.count2 == 0,
    {
        CounterState { count: 1, count2: 0 }
    }

    /// Whether `increment` may be called.
    pub fn can_increment(&self) -> (r: bool)
        ensures
            r == self.spec_can_increment(),
    {
        self.count < i32::MAX && self.count2 <= i32::MAX - 2
    }

    /// One press of the increment button: the first counter rises by one,
    /// the second by two.
    pub fn increment(&mut self)
        requires
            old(self).spec_can_increment(),
        ensures
            final(self).count == old(self).count + 1,
            final(self).count2 == old(self).count2 + 2,
    {
        self.count = self.count + 1;
        self.count2 = self.count2 + 2;
    }
}

/// What a load started with `value` yields once its delay has passed:
/// twenty times the value, or `None` where that leaves `i32`.
pub fn load_result(value: i32) -> (r: Option<i32>)
    ensures
        (i32::MIN <= value * 20 <= i32::MAX) <==> r is Some,
        r matches Some(v) ==> v == value * 20,
{
    if value > i32::MAX / LOAD_FACTOR || value < i32::MIN / LOAD_FACTOR {
        None
    } else {
        Some(value * LOAD_FACTOR)
    }
}

} // verus!
