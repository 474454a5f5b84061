//! Components found on both alternating-current and direct-current sides.

pub mod bus;
pub mod circuit_breaker;
