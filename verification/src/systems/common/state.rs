//! Snapshots of the aircraft's state, as a consumer outside the simulation
//! sees them.

use crate::quantity::{AngularVelocity, Pressure, Volume};
use vstd::prelude::*;

verus! {

/// State of the aircraft's systems as a whole.
#[derive(Debug)]
pub struct SystemState {}

/// State of the flight deck.
#[derive(Debug)]
pub struct FlightDeckState {}

/// State of the electrical system.
#[derive(Debug)]
pub struct ElectricalSystem {}

/// State of the hydraulic systems.
#[derive(Debug)]
pub struct HydraulicSystem {}

/// State of the first hydraulic system.
#[derive(Debug)]
pub struct HydraulicSystem1 {
    /// Fluid in the reservoir.
    pub reservoir_volume: Volume,
    /// Speed of the engine-driven pump.
    pub engine_driven_pump_rpm: AngularVelocity,
    /// Pressure upstream of the manifold.
    pub pre_manifold_pressure: Pressure,
    /// Pressure downstream of the manifold.
    pub post_manifold_pressure: Pressure,
}

} // verus!
