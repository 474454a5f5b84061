//! Electrical component models.

pub mod ac;
pub mod dc;
pub mod shared;
