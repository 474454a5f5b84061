//! Hydraulic power and actuation.

pub mod components;

use crate::quantity::Time;
use crate::traits::System;
use vstd::prelude::*;

verus! {

/// The aircraft's hydraulic system. It holds no state of its own yet.
pub struct HydraulicSystem {}

impl System for HydraulicSystem {
    open spec fn updated(self, delta_time: Time) -> Self {
        self
    }

    fn update(&mut self, delta_time: Time) {
    }
}

impl HydraulicSystem {
    /// A hydraulic system.
    pub fn new() -> (made: Self)
        ensures
            made == (HydraulicSystem {  }),
    {
        Self {  }
    }
}

} // verus!
