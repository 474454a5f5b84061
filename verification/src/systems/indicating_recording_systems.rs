//! Indicating and recording systems.

pub mod independent_instruments;
