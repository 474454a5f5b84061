//! The clock, which gives the flight crew universal time, elapsed time and
//! chrono time.

use crate::fixed::{bounded, trunc_div, wide_trunc_div, SCALE};
use crate::quantity::Time;
use vstd::prelude::*;

verus! {

/// What the clock counts.
#[derive(Clone, Copy, Debug, PartialEq, Eq, Structural)]
pub enum ClockMode {
    /// Universal time.
    UTC,
    /// Elapsed time.
    ET,
    /// Chrono time.
    CHR,
}

/// The clock as plain values.
pub struct ClockState {
    pub mode: ClockMode,
    pub time: int,
    pub utc: int,
    pub et: int,
}

/// Whole seconds in a span of `dt` raw seconds, as far as the clock can count
/// them: none for a negative span, and no more than a `u32` holds.
pub open spec fn whole_seconds(dt: int) -> int {
    bounded(trunc_div(dt, SCALE as int), 0, u32::MAX as int)
}

impl ClockState {
    /// The state after `dt` has passed. The running time moves on by the whole
    /// seconds in `dt` and stops at the most that the clock can show; in
    /// universal or elapsed mode the time of that mode follows it.
    pub open spec fn step(self, dt: int) -> ClockState {
        let time = bounded(self.time + whole_seconds(dt), 0, u32::MAX as int);
        match self.mode {
            ClockMode::UTC => ClockState { time, utc: time, ..self },
            ClockMode::ET => ClockState { time, et: time, ..self },
            ClockMode::CHR => ClockState { time, ..self },
        }
    }
}

/// A clock.
pub struct Clock {
    mode: ClockMode,
    time: u32,
    utc: u32,
    et: u32,
}

impl View for Clock {
    type V = ClockState;

    closed spec fn view(&self) -> ClockState {
        ClockState {
            mode: self.mode,
            time: self.time as int,
            utc: self.utc as int,
            et: self.et as int,
        }
    }
}

impl Clock {
    /// A clock in universal mode with every time at zero.
    pub fn new() -> (made: Clock)
        ensures
            made@ == (ClockState { mode: ClockMode::UTC, time: 0, utc: 0, et: 0 }),
    {
        Clock { mode: ClockMode::UTC, time: 0, utc: 0, et: 0 }
    }

    /// Choose what the clock counts.
    pub fn set_mode(&mut self, mode: ClockMode)
        ensures
            final(self)@ == (ClockState { mode, ..old(self)@ }),
    {
        self.mode = mode;
    }

    /// Set the running time.
    pub fn set_time(&mut self, time: u32)
        ensures
            final(self)@ == (ClockState { time: time as int, ..old(self)@ }),
    {
        self.time = time;
    }

    /// The running time.
    pub fn get_time(&self) -> (time: u32)
        ensures
            time as int == self@.time,
    {
        self.time
    }

    /// Set the universal time.
    pub fn set_utc(&mut self, utc: u32)
        ensures
            final(self)@ == (ClockState { utc: utc as int, ..old(self)@ }),
    {
        self.utc = utc;
    }

    /// The universal time.
    pub fn get_utc(&self) -> (utc: u32)
        ensures
            utc as int == self@.utc,
    {
        self.utc
    }

    /// Set the elapsed time.
    pub fn set_et(&mut self, et: u32)
        ensures
            final(self)@ == (ClockState { et: et as int, ..old(self)@ }),
    {
        self.et = et;
    }

    /// The elapsed time.
    pub fn get_et(&self) -> (et: u32)
        ensures
            et as int == self@.et,
    {
        self.et
    }

    /// Advance the clock by `dt`.
    pub fn update(&mut self, dt: Time)
        ensures
            final(self)@ == old(self)@.step(dt@),
    {
        let whole: i128 = wide_trunc_div(dt.micro as i128, SCALE as i128);
        let passed: u32 = if whole < 0 {
            0
        } else if whole > u32::MAX as i128 {
            u32::MAX
        } else {
            whole as u32
        };
        let time: u32 = if passed > u32::MAX - self.time {
            u32::MAX
        } else {
            self.time + passed
        };
        self.time = time;
        match self.mode {
            ClockMode::UTC => {
                self.utc = time;
            },
            ClockMode::ET => {
                self.et = time;
            },
            ClockMode::CHR => {},
        }
    }
}

} // verus!
