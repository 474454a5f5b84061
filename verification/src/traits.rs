//! What the orchestrator asks of every subsystem.

use crate::quantity::Time;
use vstd::prelude::*;

verus! {

/// A subsystem that moves forward in time.
pub trait System: Sized {
    /// The subsystem after `delta_time` has passed.
    spec fn updated(self, delta_time: Time) -> Self;

    /// Advance the subsystem by `delta_time`.
    fn update(&mut self, delta_time: Time)
        ensures
            *final(self) == old(self).updated(delta_time),
    ;
}

/// Holds one subsystem and advances it.
pub struct SystemContainer<T: System> {
    component: T,
}

impl<T: System> View for SystemContainer<T> {
    type V = T;

    /// The subsystem held.
    closed spec fn view(&self) -> T {
        self.component
    }
}

impl<T: System> SystemContainer<T> {
    /// A container that holds `component`.
    pub fn new(component: T) -> (made: Self)
        ensures
            made@ == component,
    {
        Self { component }
    }

    /// Advance the subsystem held by `delta_time`.
    pub fn update(&mut self, delta_time: Time)
        ensures
            final(self)@ == old(self)@.updated(delta_time),
    {
        self.component.update(delta_time);
    }
}

} // verus!
