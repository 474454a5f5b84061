//! Alternating-current components.

pub mod generator;
