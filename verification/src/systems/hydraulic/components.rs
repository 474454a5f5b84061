//! Hydraulic component models.

pub mod hydraulic_actuator;
