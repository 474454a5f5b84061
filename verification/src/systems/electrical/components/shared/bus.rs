//! A bus bar: a lossless node that hands on whatever is applied to it.

use crate::quantity::{ElectricCurrent, ElectricPotential, Power, Time};
use crate::systems::electrical::{
    current_drawn, current_from_power, ComponentState, ElectricalComponent,
};
use vstd::prelude::*;

verus! {

/// The bus as plain numbers, both raw fixed-point values.
pub struct BusState {
    pub voltage: int,
    pub power: int,
}

impl BusState {
    /// Current through the bus, derived from its power and voltage.
    pub open spec fn output_current(self) -> int {
        current_drawn(self.power, self.voltage)
    }
}

/// A bus bar.
pub struct Bus {
    /// Voltage on the bus.
    pub voltage: ElectricPotential,
    /// Power passing through the bus.
    pub power: Power,
}

impl View for Bus {
    type V = BusState;

    open spec fn view(&self) -> BusState {
        BusState { voltage: self.voltage@, power: self.power@ }
    }
}

impl Bus {
    /// A bus at the given voltage that carries the given power.
    pub fn new(voltage: ElectricPotential, power: Power) -> (made: Self)
        ensures
            made@ == (BusState { voltage: voltage@, power: power@ }),
    {
        Bus { voltage, power }
    }
}

impl ElectricalComponent for Bus {
    open spec fn state(&self) -> ComponentState {
        ComponentState::Bus(self@)
    }

    /// Advance the bus by `dt`. A bus has no state that moves with time.
    fn update(&mut self, dt: Time)
        ensures
            final(self)@ == old(self)@,
    {
    }

    /// Power on the bus: the power last applied to it.
    fn get_output_power(&self) -> (power: Power)
        ensures
            power@ == self@.power,
    {
        self.power
    }

    /// Apply a power to the bus.
    fn set_input_power(&mut self, power: Power)
        ensures
            final(self)@ == (BusState { power: power@, ..old(self)@ }),
    {
        self.power = power;
    }

    /// Voltage on the bus: the voltage last applied to it.
    fn get_output_voltage(&self) -> (voltage: ElectricPotential)
        ensures
            voltage@ == self@.voltage,
    {
        self.voltage
    }

    /// Apply a voltage to the bus.
    fn set_input_voltage(&mut self, voltage: ElectricPotential)
        ensures
            final(self)@ == (BusState { voltage: voltage@, ..old(self)@ }),
    {
        self.voltage = voltage;
    }

    /// Current through the bus, derived from its power and voltage.
    fn get_output_current(&self) -> (current: ElectricCurrent)
        ensures
            current@ == self@.output_current(),
    {
        current_from_power(self.power, self.voltage)
    }

    /// Current into the bus: the same as the current out of it.
    fn get_input_current(&self) -> (current: ElectricCurrent)
        ensures
            current@ == self@.output_current(),
    {
        self.get_output_current()
    }

    /// A bus keeps no current of its own: a current offered to it is ignored.
    fn set_input_current(&mut self, current: ElectricCurrent)
        ensures
            final(self)@ == old(self)@,
    {
    }
}

} // verus!
