//! The time between one tick and the next, from readings of a clock.

use crate::quantity::Time;
use vstd::prelude::*;

verus! {

/// Time that has passed between two readings of a clock that counts
/// microseconds: their difference, none where the clock has gone backwards,
/// and no more than a `Time` can hold.
pub open spec fn elapsed_between(earlier: int, later: int) -> int {
    if later <= earlier {
        0
    } else if later - earlier > i64::MAX as int {
        i64::MAX as int
    } else {
        later - earlier
    }
}

/// Remembers the last reading of a clock that counts microseconds.
pub struct DeltaTime {
    last_time: u64,
}

impl View for DeltaTime {
    type V = int;

    /// The last reading.
    closed spec fn view(&self) -> int {
        self.last_time as int
    }
}

impl DeltaTime {
    /// Start from the reading `now`.
    pub fn new(now: u64) -> (made: Self)
        ensures
            made@ == now as int,
    {
        Self { last_time: now }
    }

    /// Take the reading `now` and return the time since the reading before.
    pub fn update_time(&mut self, now: u64) -> (delta: Time)
        ensures
            final(self)@ == now as int,
            delta@ == elapsed_between(old(self)@, now as int),
    {
        let delta: i64 = if now <= self.last_time {
            0
        } else if now - self.last_time > i64::MAX as u64 {
            i64::MAX
        } else {
            (now - self.last_time) as i64
        };
        self.last_time = now;
        Time::new(delta)
    }
}

} // verus!
