//! Helpers for whoever drives the simulation.

pub mod delta_time;
