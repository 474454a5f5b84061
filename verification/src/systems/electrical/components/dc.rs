//! Direct-current components.

pub mod generic_dc_component;
