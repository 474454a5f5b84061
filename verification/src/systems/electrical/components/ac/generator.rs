//! A rotating generator: it spins up after it is switched on, turns
//! mechanical power into electrical power up to its rating, and its terminal
//! voltage droops under load.

use crate::fixed::{
    at_least, at_most, bounded, clamp, difference, greater, lemma_product_by_less_than_one,
    lemma_product_by_one, lemma_product_grows_with_factor, lemma_quotient_against_one,
    lemma_quotient_grows_with_dividend, lesser, minus, over, plus, product, quotient, sum, times,
    SCALE,
};
use crate::quantity::{
    AngularVelocity, ElectricCurrent, ElectricPotential, ElectricalResistance, Frequency, Power,
    Ratio, Time,
};
use crate::systems::electrical::{
    current_drawn, current_from_power, ComponentState, ElectricalComponent,
};
use vstd::prelude::*;

verus! {

/// Sixty, in raw units: revolutions per minute for each revolution per second.
pub const SIXTY: i64 = 60_000_000;

/// Shaft speed at which a machine with `num_poles` poles gives `frequency`.
pub open spec fn synchronous_speed(frequency: int, num_poles: int) -> int {
    quotient(product(frequency, SIXTY as int), num_poles)
}

/// Fraction of the drive speed that the rotor has reached after being on for
/// `time_on`, when spinning up takes `spin_up_time`. A machine that needs no
/// time to spin up is at full speed at once.
pub open spec fn spin_progress(time_on: int, spin_up_time: int) -> int {
    if spin_up_time > 0 {
        lesser(quotient(time_on, spin_up_time), SCALE as int)
    } else {
        SCALE as int
    }
}

/// The generator as plain numbers: every quantity is a raw fixed-point value.
pub struct GeneratorState {
    pub num_poles: int,
    pub rated_power: int,
    pub rated_voltage: int,
    pub rated_frequency: int,
    pub efficiency: int,
    pub internal_resistance: int,
    pub mechanical_input_power: int,
    pub rpm: int,
    pub output_power: int,
    pub output_voltage: int,
    pub spin_up_time: int,
    pub current_rpm: int,
    pub is_on: bool,
    pub time_on: int,
    pub phase_count: int,
}

impl GeneratorState {
    /// The efficiency is a fraction.
    pub open spec fn wf(self) -> bool {
        0 <= self.efficiency <= SCALE as int
    }

    /// Rotor speed once the machine has been on for `time_on`.
    pub open spec fn speed_after(self, time_on: int) -> int {
        product(self.rpm, spin_progress(time_on, self.spin_up_time))
    }

    /// Efficiency at rotor speed `speed`: the rated efficiency at or above
    /// synchronous speed, and below it the rated efficiency derated by the
    /// ratio of drive speed to synchronous speed.
    pub open spec fn efficiency_at(self, speed: int) -> int {
        let expected = synchronous_speed(self.rated_frequency, self.num_poles);
        if speed >= expected {
            self.efficiency
        } else {
            product(self.efficiency, quotient(self.rpm, expected))
        }
    }

    /// Electrical power delivered at rotor speed `speed`: what the mechanical
    /// input yields at that speed's efficiency, up to the rating.
    pub open spec fn power_at(self, speed: int) -> int {
        lesser(product(self.mechanical_input_power, self.efficiency_at(speed)), self.rated_power)
    }

    /// Terminal voltage while delivering `power`: the rated voltage less the
    /// drop of the load current across the internal resistance, never below
    /// zero. The load current is taken as power over rated voltage, times the
    /// number of phases.
    pub open spec fn voltage_under(self, power: int) -> int {
        let current = product(
            quotient(power, self.rated_voltage),
            self.phase_count * (SCALE as int),
        );
        greater(difference(self.rated_voltage, product(current, self.internal_resistance)), 0)
    }

    /// The state after a tick of `dt`.
    pub open spec fn step(self, dt: int) -> GeneratorState {
        if !self.is_on {
            GeneratorState { output_power: 0, output_voltage: 0, current_rpm: 0, ..self }
        } else {
            let time_on = sum(self.time_on, dt);
            let speed = self.speed_after(time_on);
            let power = self.power_at(speed);
            GeneratorState {
                time_on,
                current_rpm: speed,
                output_power: power,
                output_voltage: self.voltage_under(power),
                ..self
            }
        }
    }

    /// The generator switched on, with its time on counted from zero.
    pub open spec fn switched_on(self) -> GeneratorState {
        GeneratorState { is_on: true, time_on: 0, ..self }
    }

    /// The generator switched off: its outputs and its speed are zero at
    /// once.
    pub open spec fn switched_off(self) -> GeneratorState {
        GeneratorState { is_on: false, output_voltage: 0, output_power: 0, current_rpm: 0, ..self }
    }

    /// The generator with its drive set to the given power and speed. A
    /// generator that is off takes no notice.
    pub open spec fn driven(self, power: int, rpm: int) -> GeneratorState {
        if self.is_on {
            GeneratorState { mechanical_input_power: power, rpm, ..self }
        } else {
            self
        }
    }

    /// Current at the terminals.
    pub open spec fn output_current(self) -> int {
        current_drawn(self.output_power, self.output_voltage)
    }
}

/// A rotating generator.
pub struct Generator {
    num_poles: Ratio,
    rated_power: Power,
    rated_voltage: ElectricPotential,
    rated_frequency: Frequency,
    efficiency: Ratio,
    internal_resistance: ElectricalResistance,
    mechanical_input_power: Power,
    rpm: AngularVelocity,
    output_power: Power,
    output_voltage: ElectricPotential,
    spin_up_time: Time,
    current_rpm: AngularVelocity,
    is_on: bool,
    time_on: Time,
    phase_count: u8,
}

impl View for Generator {
    type V = GeneratorState;

    closed spec fn view(&self) -> GeneratorState {
        GeneratorState {
            num_poles: self.num_poles@,
            rated_power: self.rated_power@,
            rated_voltage: self.rated_voltage@,
            rated_frequency: self.rated_frequency@,
            efficiency: self.efficiency@,
            internal_resistance: self.internal_resistance@,
            mechanical_input_power: self.mechanical_input_power@,
            rpm: self.rpm@,
            output_power: self.output_power@,
            output_voltage: self.output_voltage@,
            spin_up_time: self.spin_up_time@,
            current_rpm: self.current_rpm@,
            is_on: self.is_on,
            time_on: self.time_on@,
            phase_count: self.phase_count as int,
        }
    }
}

impl Generator {
    /// Every generator holds an efficiency within `[0, 1]`.
    #[verifier::type_invariant]
    closed spec fn efficiency_is_a_fraction(self) -> bool {
        0 <= self.efficiency@ <= SCALE as int
    }

    /// The generator's efficiency, which is a fraction.
    pub fn efficiency(&self) -> (efficiency: Ratio)
        ensures
            efficiency@ == self@.efficiency,
            self@.wf(),
    {
        proof {
            use_type_invariant(self);
        }
        self.efficiency
    }

    /// A generator that is switched off and delivers nothing. The efficiency
    /// is held within `[0, 1]`, and the drive speed starts at the synchronous
    /// speed of the rated frequency.
    pub fn new(
        num_poles: Ratio,
        rated_power: Power,
        rated_voltage: ElectricPotential,
        rated_frequency: Frequency,
        efficiency: Ratio,
        internal_resistance: ElectricalResistance,
        spin_up_time: Time,
        phase_count: u8,
    ) -> (made: Self)
        ensures
            made@.wf(),
            made@ == (GeneratorState {
                num_poles: num_poles@,
                rated_power: rated_power@,
                rated_voltage: rated_voltage@,
                rated_frequency: rated_frequency@,
                efficiency: bounded(efficiency@, 0, SCALE as int),
                internal_resistance: internal_resistance@,
                mechanical_input_power: 0,
                rpm: synchronous_speed(rated_frequency@, num_poles@),
                output_power: 0,
                output_voltage: 0,
                spin_up_time: spin_up_time@,
                current_rpm: 0,
                is_on: false,
                time_on: 0,
                phase_count: phase_count as int,
            }),
    {
        Generator {
            num_poles,
            rated_power,
            rated_voltage,
            rated_frequency,
            efficiency: Ratio::new(clamp(efficiency.micro, 0, SCALE)),
            internal_resistance,
            mechanical_input_power: Power::new(0),
            rpm: AngularVelocity::new(over(times(rated_frequency.micro, SIXTY), num_poles.micro)),
            output_power: Power::new(0),
            output_voltage: ElectricPotential::new(0),
            spin_up_time,
            current_rpm: AngularVelocity::new(0),
            is_on: false,
            time_on: Time::new(0),
            phase_count,
        }
    }

    /// Set the mechanical power and speed of the drive. A generator that is
    /// switched off ignores the call.
    pub fn set_mechanical_input(&mut self, power: Power, rpm: AngularVelocity)
        ensures
            final(self)@ == old(self)@.driven(power@, rpm@),
    {
        proof {
            use_type_invariant(&*self);
        }
        if self.is_on {
            self.mechanical_input_power = power;
            self.rpm = rpm;
        }
    }

    /// Switch the generator on and start counting its time on from zero.
    pub fn turn_on(&mut self)
        ensures
            final(self)@ == old(self)@.switched_on(),
    {
        proof {
            use_type_invariant(&*self);
        }
        self.is_on = true;
        self.time_on = Time::new(0);
    }

    /// Switch the generator off. Its outputs and its speed drop to zero at
    /// once.
    pub fn turn_off(&mut self)
        ensures
            final(self)@ == old(self)@.switched_off(),
    {
        proof {
            use_type_invariant(&*self);
        }
        self.is_on = false;
        self.output_voltage = ElectricPotential::new(0);
        self.output_power = Power::new(0);
        self.current_rpm = AngularVelocity::new(0);
    }

    /// Whether the generator is switched on.
    pub fn is_on(&self) -> (on: bool)
        ensures
            on == self@.is_on,
    {
        self.is_on
    }

    /// Present rotor speed.
    pub fn speed(&self) -> (rpm: AngularVelocity)
        ensures
            rpm@ == self@.current_rpm,
    {
        self.current_rpm
    }
}

impl ElectricalComponent for Generator {
    open spec fn state(&self) -> ComponentState {
        ComponentState::PowerSource(self@)
    }

    /// Advance the generator by `dt`.
    fn update(&mut self, dt: Time)
        ensures
            final(self)@ == old(self)@.step(dt@),
    {
        proof {
            use_type_invariant(&*self);
        }
        if !self.is_on {
            self.output_power = Power::new(0);
            self.output_voltage = ElectricPotential::new(0);
            self.current_rpm = AngularVelocity::new(0);
            return ;
        }
        self.time_on = Time::new(plus(self.time_on.micro, dt.micro));

        let spin_progress: i64 = if self.spin_up_time.micro > 0 {
            at_most(over(self.time_on.micro, self.spin_up_time.micro), SCALE)
        } else {
            SCALE
        };
        self.current_rpm = AngularVelocity::new(times(self.rpm.micro, spin_progress));

        let expected_rpm: i64 = over(times(self.rated_frequency.micro, SIXTY), self.num_poles.micro);
        let efficiency_factor: i64 = if self.current_rpm.micro >= expected_rpm {
            self.efficiency.micro
        } else {
            times(self.efficiency.micro, over(self.rpm.micro, expected_rpm))
        };

        let available_electrical_power: i64 = times(
            self.mechanical_input_power.micro,
            efficiency_factor,
        );
        self.output_power = Power::new(at_most(available_electrical_power, self.rated_power.micro));

        let phases: i64 = (self.phase_count as i64) * SCALE;
        let current: i64 = times(over(self.output_power.micro, self.rated_voltage.micro), phases);
        let voltage_drop: i64 = times(current, self.internal_resistance.micro);
        self.output_voltage = ElectricPotential::new(
            at_least(minus(self.rated_voltage.micro, voltage_drop), 0),
        );
    }

    /// Power at the terminals.
    fn get_output_power(&self) -> (power: Power)
        ensures
            power@ == self@.output_power,
    {
        self.output_power
    }

    /// A generator is a source: power offered to it is ignored.
    fn set_input_power(&mut self, power: Power)
        ensures
            final(self)@ == old(self)@,
    {
    }

    /// Voltage at the terminals.
    fn get_output_voltage(&self) -> (voltage: ElectricPotential)
        ensures
            voltage@ == self@.output_voltage,
    {
        self.output_voltage
    }

    /// A generator is a source: voltage offered to it is ignored.
    fn set_input_voltage(&mut self, voltage: ElectricPotential)
        ensures
            final(self)@ == old(self)@,
    {
    }

    /// Current at the terminals, derived from output power and voltage.
    fn get_output_current(&self) -> (current: ElectricCurrent)
        ensures
            current@ == self@.output_current(),
    {
        current_from_power(self.output_power, self.output_voltage)
    }

    /// Current into the generator: the same as the current out of it.
    fn get_input_current(&self) -> (current: ElectricCurrent)
        ensures
            current@ == self@.output_current(),
    {
        self.get_output_current()
    }

    /// A generator is a source: current offered to it is ignored.
    fn set_input_current(&mut self, current: ElectricCurrent)
        ensures
            final(self)@ == old(self)@,
    {
    }
}

/// A generator that is switched off delivers nothing after a tick: no
/// voltage, no power, no current, and its rotor stands still. Whatever
/// mechanical input it holds plays no part.
pub proof fn lemma_off_generator_delivers_nothing(state: GeneratorState, dt: int)
    requires
        !state.is_on,
    ensures
        !state.step(dt).is_on,
        state.step(dt).output_voltage == 0,
        state.step(dt).output_power == 0,
        state.step(dt).output_current() == 0,
        state.step(dt).current_rpm == 0,
{
}

/// A generator that takes time to spin up turns at its full drive speed once
/// it has been on for the spin-up time, and at less than that before.
pub proof fn lemma_full_speed_only_after_spin_up(state: GeneratorState, time_on: int)
    requires
        state.spin_up_time > 0,
        0 < state.rpm <= i64::MAX as int,
    ensures
        time_on >= state.spin_up_time ==> state.speed_after(time_on) == state.rpm,
        time_on < state.spin_up_time ==> state.speed_after(time_on) < state.rpm,
{
    lemma_quotient_against_one(time_on, state.spin_up_time);
    if time_on >= state.spin_up_time {
        lemma_product_by_one(state.rpm);
    } else {
        lemma_product_by_less_than_one(state.rpm, spin_progress(time_on, state.spin_up_time));
    }
}

/// While a generator spins up, the longer it has been on the faster it
/// turns, never the slower.
pub proof fn lemma_speed_grows_with_time_on(state: GeneratorState, earlier: int, later: int)
    requires
        state.rpm >= 0,
        earlier <= later,
    ensures
        state.speed_after(earlier) <= state.speed_after(later),
{
    if state.spin_up_time > 0 {
        lemma_quotient_grows_with_dividend(earlier, later, state.spin_up_time);
    }
    lemma_product_grows_with_factor(
        state.rpm,
        spin_progress(earlier, state.spin_up_time),
        spin_progress(later, state.spin_up_time),
    );
}

/// A tick of a running generator sets the rotor speed to the speed that
/// belongs to the time it has then been on.
pub proof fn lemma_running_speed_follows_time_on(state: GeneratorState, dt: int)
    requires
        state.is_on,
    ensures
        state.step(dt).time_on == sum(state.time_on, dt),
        state.step(dt).current_rpm == state.speed_after(state.step(dt).time_on),
{
}

/// A tick of no length that follows a tick changes nothing: the generator
/// has already settled on what its inputs give.
pub proof fn lemma_zero_tick_after_tick_changes_nothing(state: GeneratorState, dt: int)
    ensures
        state.step(dt).step(0) == state.step(dt),
{
}

} // verus!
