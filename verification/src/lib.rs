//! Tick-driven simulation of aircraft electrical and hydraulic subsystems.
//!
//! Every physical quantity is an exact fixed-point number, so each step of the
//! simulation is a total, deterministic function of the state before it.

pub mod communication_bus;
pub mod fixed;
pub mod quantity;
pub mod systems;
pub mod traits;
pub mod utils;
