//! The chronometer, which shows hours and minutes to the flight crew.

use crate::quantity::Time;
use vstd::prelude::*;

verus! {

/// A chronometer.
pub struct Chronometer {
    hours: u32,
    minutes: u32,
}

impl View for Chronometer {
    type V = (int, int);

    /// Hours and minutes.
    closed spec fn view(&self) -> (int, int) {
        (self.hours as int, self.minutes as int)
    }
}

impl Chronometer {
    /// A chronometer at zero hours and zero minutes.
    pub fn new() -> (made: Chronometer)
        ensures
            made@ == (0int, 0int),
    {
        Chronometer { hours: 0, minutes: 0 }
    }

    /// Set the hours shown.
    pub fn set_hours(&mut self, hours: u32)
        ensures
            final(self)@ == (hours as int, old(self)@.1),
    {
        self.hours = hours;
    }

    /// The hours shown.
    pub fn get_hours(&self) -> (hours: u32)
        ensures
            hours as int == self@.0,
    {
        self.hours
    }

    /// Set the minutes shown.
    pub fn set_minutes(&mut self, minutes: u32)
        ensures
            final(self)@ == (old(self)@.0, minutes as int),
    {
        self.minutes = minutes;
    }

    /// The minutes shown.
    pub fn get_minutes(&self) -> (minutes: u32)
        ensures
            minutes as int == self@.1,
    {
        self.minutes
    }

    /// Advance the chronometer by `dt`. It shows what it is set to and does
    /// not run by itself.
    pub fn update(&mut self, dt: Time)
        ensures
            final(self)@ == old(self)@,
    {
    }
}

} // verus!
