//! What the subsystems share.

pub mod state;
