//! Instruments that work on their own.

pub mod chronometer;
pub mod clock;
