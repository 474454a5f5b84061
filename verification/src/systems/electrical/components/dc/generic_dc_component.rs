//! A direct-current load whose power draw follows one of four laws of the
//! voltage applied to it.

use crate::fixed::{bounded, clamp, difference, minus, over, product, quotient, times, SCALE};
use crate::quantity::{ElectricCurrent, ElectricPotential, ElectricalResistance, Power, Ratio, Time};
use crate::systems::electrical::{
    current_drawn, current_from_power, ComponentState, ElectricalComponent,
};
use vstd::prelude::*;

verus! {

/// How a load's power draw depends on the voltage applied to it.
#[derive(Clone, Copy, Debug, PartialEq, Eq, Structural)]
pub enum VoltageResponse {
    /// Power in proportion to the applied voltage over the nominal voltage.
    Linear,
    /// Full power at or above the minimum voltage, none below.
    Binary,
    /// Full power at any voltage at or above the minimum, as a switching
    /// regulator draws it.
    Regulated,
    /// Power that rises in a straight line from none at the minimum voltage to
    /// full at the nominal voltage, and stays full above it.
    Proportional,
}

/// What a load's supply voltage is doing wrong.
#[derive(Clone, Copy, Debug, PartialEq, Eq, Structural)]
pub enum VoltageFault {
    /// The applied voltage is above the maximum operating voltage.
    Overvoltage,
    /// The applied voltage is below the minimum operating voltage.
    Undervoltage,
}

/// The load as plain values: every quantity is a raw fixed-point value.
pub struct LoadState {
    pub name: Seq<char>,
    pub nominal_voltage: int,
    pub nominal_power: int,
    pub resistance: int,
    pub min_voltage: int,
    pub max_voltage: int,
    pub voltage_response: VoltageResponse,
    pub power_factor: int,
    pub input_voltage: int,
    pub input_power: int,
    pub input_current: int,
    pub is_on: bool,
    pub load_factor: int,
}

/// Resistance of a load that draws `nominal_power` at `nominal_voltage`. A
/// load without a positive rating conducts nothing: its resistance is the
/// largest that can be held.
pub open spec fn nominal_resistance(nominal_voltage: int, nominal_power: int) -> int {
    if nominal_power > 0 && nominal_voltage > 0 {
        quotient(product(nominal_voltage, nominal_voltage), nominal_power)
    } else {
        i64::MAX as int
    }
}

impl LoadState {
    /// The power factor and the load factor are fractions.
    pub open spec fn wf(self) -> bool {
        &&& 0 <= self.power_factor <= SCALE as int
        &&& 0 <= self.load_factor <= SCALE as int
    }

    /// The load is switched on and supplied with at least its minimum voltage.
    pub open spec fn is_powered(self) -> bool {
        self.is_on && self.input_voltage >= self.min_voltage
    }

    /// Fraction of the rated power that the response law allows at the
    /// applied voltage, for a powered load.
    pub open spec fn voltage_factor(self) -> int {
        match self.voltage_response {
            VoltageResponse::Binary => SCALE as int,
            VoltageResponse::Regulated => SCALE as int,
            VoltageResponse::Linear => quotient(self.input_voltage, self.nominal_voltage),
            VoltageResponse::Proportional => if self.input_voltage >= self.nominal_voltage {
                SCALE as int
            } else {
                quotient(
                    difference(self.input_voltage, self.min_voltage),
                    difference(self.nominal_voltage, self.min_voltage),
                )
            },
        }
    }

    /// Power that the load consumes at the applied voltage.
    pub open spec fn consumed_power(self) -> int {
        if !self.is_powered() {
            0
        } else {
            match self.voltage_response {
                VoltageResponse::Binary => product(
                    product(self.nominal_power, self.load_factor),
                    self.power_factor,
                ),
                VoltageResponse::Regulated => product(
                    product(self.nominal_power, self.load_factor),
                    self.power_factor,
                ),
                VoltageResponse::Linear => product(
                    product(product(self.nominal_power, self.voltage_factor()), self.load_factor),
                    self.power_factor,
                ),
                VoltageResponse::Proportional => product(
                    product(product(self.nominal_power, self.voltage_factor()), self.power_factor),
                    self.load_factor,
                ),
            }
        }
    }

    /// Current that the load draws: consumed power over applied voltage.
    pub open spec fn drawn_current(self) -> int {
        current_drawn(self.consumed_power(), self.input_voltage)
    }

    /// What is wrong with the supply of a load that is switched on, if
    /// anything is. A load that is off has no fault.
    pub open spec fn voltage_fault(self) -> Option<VoltageFault> {
        if !self.is_on {
            None
        } else if self.input_voltage > self.max_voltage {
            Some(VoltageFault::Overvoltage)
        } else if self.input_voltage < self.min_voltage {
            Some(VoltageFault::Undervoltage)
        } else {
            None
        }
    }
}

/// A generic direct-current load.
pub struct GenericDcComponent {
    name: String,
    nominal_voltage: ElectricPotential,
    nominal_power: Power,
    resistance: ElectricalResistance,
    min_voltage: ElectricPotential,
    max_voltage: ElectricPotential,
    voltage_response: VoltageResponse,
    power_factor: Ratio,
    input_voltage: ElectricPotential,
    input_power: Power,
    input_current: ElectricCurrent,
    is_on: bool,
    load_factor: Ratio,
}

impl View for GenericDcComponent {
    type V = LoadState;

    closed spec fn view(&self) -> LoadState {
        LoadState {
            name: self.name@,
            nominal_voltage: self.nominal_voltage@,
            nominal_power: self.nominal_power@,
            resistance: self.resistance@,
            min_voltage: self.min_voltage@,
            max_voltage: self.max_voltage@,
            voltage_response: self.voltage_response,
            power_factor: self.power_factor@,
            input_voltage: self.input_voltage@,
            input_power: self.input_power@,
            input_current: self.input_current@,
            is_on: self.is_on,
            load_factor: self.load_factor@,
        }
    }
}

impl GenericDcComponent {
    /// Every load holds a power factor and a load factor within `[0, 1]`.
    #[verifier::type_invariant]
    closed spec fn factors_are_fractions(self) -> bool {
        self@.wf()
    }

    /// The load's power factor, which is a fraction.
    pub fn power_factor(&self) -> (factor: Ratio)
        ensures
            factor@ == self@.power_factor,
            self@.wf(),
    {
        proof {
            use_type_invariant(self);
        }
        self.power_factor
    }

    /// The fraction of its rated power that the load asks for.
    pub fn load_factor(&self) -> (factor: Ratio)
        ensures
            factor@ == self@.load_factor,
            self@.wf(),
    {
        proof {
            use_type_invariant(self);
        }
        self.load_factor
    }

    /// A load that is switched off, at full load factor, with nothing applied
    /// to it. The power factor is held within `[0, 1]`.
    pub fn new(
        name: &str,
        nominal_voltage: ElectricPotential,
        nominal_power: Power,
        min_voltage: ElectricPotential,
        max_voltage: ElectricPotential,
        voltage_response: VoltageResponse,
        power_factor: Ratio,
    ) -> (made: Self)
        ensures
            made@.wf(),
            made@ == (LoadState {
                name: name@,
                nominal_voltage: nominal_voltage@,
                nominal_power: nominal_power@,
                resistance: nominal_resistance(nominal_voltage@, nominal_power@),
                min_voltage: min_voltage@,
                max_voltage: max_voltage@,
                voltage_response,
                power_factor: bounded(power_factor@, 0, SCALE as int),
                input_voltage: 0,
                input_power: 0,
                input_current: 0,
                is_on: false,
                load_factor: SCALE as int,
            }),
    {
        let resistance: i64 = if nominal_power.micro > 0 && nominal_voltage.micro > 0 {
            over(times(nominal_voltage.micro, nominal_voltage.micro), nominal_power.micro)
        } else {
            i64::MAX
        };
        GenericDcComponent {
            name: name.to_owned(),
            nominal_voltage,
            nominal_power,
            resistance: ElectricalResistance::new(resistance),
            min_voltage,
            max_voltage,
            voltage_response,
            power_factor: Ratio::new(clamp(power_factor.micro, 0, SCALE)),
            input_voltage: ElectricPotential::new(0),
            input_power: Power::new(0),
            input_current: ElectricCurrent::new(0),
            is_on: false,
            load_factor: Ratio::new(SCALE),
        }
    }

    /// Switch the load on or off.
    pub fn set_power_state(&mut self, on: bool)
        ensures
            final(self)@ == (LoadState { is_on: on, ..old(self)@ }),
    {
        proof {
            use_type_invariant(&*self);
        }
        self.is_on = on;
    }

    /// Set the fraction of the rated power that the load asks for. The factor
    /// is held within `[0, 1]`.
    pub fn set_load_factor(&mut self, factor: Ratio)
        ensures
            final(self)@ == (LoadState {
                load_factor: bounded(factor@, 0, SCALE as int),
                ..old(self)@
            }),
    {
        proof {
            use_type_invariant(&*self);
        }
        self.load_factor = Ratio::new(clamp(factor.micro, 0, SCALE));
    }

    /// Whether the load is switched on.
    pub fn is_on(&self) -> (on: bool)
        ensures
            on == self@.is_on,
    {
        self.is_on
    }

    /// Power that the load consumes at the voltage applied to it.
    pub fn get_actual_power(&self) -> (power: Power)
        ensures
            power@ == self@.consumed_power(),
    {
        if !self.is_on || self.input_voltage.micro < self.min_voltage.micro {
            return Power::new(0);
        }
        let nominal: i64 = self.nominal_power.micro;
        let load: i64 = self.load_factor.micro;
        let factor: i64 = self.power_factor.micro;
        match self.voltage_response {
            VoltageResponse::Binary => Power::new(times(times(nominal, load), factor)),
            VoltageResponse::Linear => {
                let voltage_ratio: i64 = over(
                    self.input_voltage.micro,
                    self.nominal_voltage.micro,
                );
                Power::new(times(times(times(nominal, voltage_ratio), load), factor))
            },
            VoltageResponse::Regulated => Power::new(times(times(nominal, load), factor)),
            VoltageResponse::Proportional => {
                let voltage_factor: i64 = if self.input_voltage.micro
                    >= self.nominal_voltage.micro {
                    SCALE
                } else {
                    over(
                        minus(self.input_voltage.micro, self.min_voltage.micro),
                        minus(self.nominal_voltage.micro, self.min_voltage.micro),
                    )
                };
                Power::new(times(times(times(nominal, voltage_factor), factor), load))
            },
        }
    }

    /// What is wrong with the supply voltage, if the load is on and anything
    /// is.
    pub fn voltage_fault(&self) -> (fault: Option<VoltageFault>)
        ensures
            fault == self@.voltage_fault(),
    {
        if !self.is_on {
            None
        } else if self.input_voltage.micro > self.max_voltage.micro {
            Some(VoltageFault::Overvoltage)
        } else if self.input_voltage.micro < self.min_voltage.micro {
            Some(VoltageFault::Undervoltage)
        } else {
            None
        }
    }

    /// The load's name.
    pub fn name(&self) -> (name: &String)
        ensures
            name@ == self@.name,
    {
        &self.name
    }
}

impl ElectricalComponent for GenericDcComponent {
    open spec fn state(&self) -> ComponentState {
        ComponentState::Load(self@)
    }

    /// Advance the load by `dt`. A load has no state that moves with time.
    fn update(&mut self, dt: Time)
        ensures
            final(self)@ == old(self)@,
    {
    }

    /// A load passes no power on.
    fn get_output_power(&self) -> (power: Power)
        ensures
            power@ == 0,
    {
        Power::new(0)
    }

    /// Record the power offered to the load.
    fn set_input_power(&mut self, power: Power)
        ensures
            final(self)@ == (LoadState { input_power: power@, ..old(self)@ }),
    {
        proof {
            use_type_invariant(&*self);
        }
        self.input_power = power;
    }

    /// A load passes no voltage on.
    fn get_output_voltage(&self) -> (voltage: ElectricPotential)
        ensures
            voltage@ == 0,
    {
        ElectricPotential::new(0)
    }

    /// Apply a voltage to the load.
    fn set_input_voltage(&mut self, voltage: ElectricPotential)
        ensures
            final(self)@ == (LoadState { input_voltage: voltage@, ..old(self)@ }),
    {
        proof {
            use_type_invariant(&*self);
        }
        self.input_voltage = voltage;
    }

    /// A load passes no current on.
    fn get_output_current(&self) -> (current: ElectricCurrent)
        ensures
            current@ == 0,
    {
        ElectricCurrent::new(0)
    }

    /// Current that the load draws: consumed power over applied voltage, and
    /// none while the applied voltage is not positive.
    fn get_input_current(&self) -> (current: ElectricCurrent)
        ensures
            current@ == self@.drawn_current(),
    {
        current_from_power(self.get_actual_power(), self.input_voltage)
    }

    /// Record the current that the network computed for the load's supply.
    fn set_input_current(&mut self, current: ElectricCurrent)
        ensures
            final(self)@ == (LoadState { input_current: current@, ..old(self)@ }),
    {
        proof {
            use_type_invariant(&*self);
        }
        self.input_current = current;
    }
}

/// A binary load is a step function of its supply: it consumes nothing while
/// it is off or supplied below its minimum voltage, and otherwise its nominal
/// power scaled by load factor and power factor, whatever the voltage.
pub proof fn lemma_binary_load_is_a_step(state: LoadState)
    requires
        state.voltage_response == VoltageResponse::Binary,
    ensures
        !state.is_on || state.input_voltage < state.min_voltage ==> state.consumed_power() == 0,
        state.is_on && state.input_voltage >= state.min_voltage ==> state.consumed_power()
            == product(product(state.nominal_power, state.load_factor), state.power_factor),
{
}

/// Every response law gives no power to a load that is off or supplied below
/// its minimum voltage.
pub proof fn lemma_unpowered_load_consumes_nothing(state: LoadState)
    requires
        !state.is_on || state.input_voltage < state.min_voltage,
    ensures
        state.consumed_power() == 0,
        state.drawn_current() == 0,
{
    assert(quotient(0, state.input_voltage) == 0) by {
        if state.input_voltage > 0 {
            assert(0int / state.input_voltage == 0) by (nonlinear_arith)
                requires
                    state.input_voltage > 0,
            ;
        }
    }
}

} // verus!
