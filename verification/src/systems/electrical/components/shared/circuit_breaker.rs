//! A circuit breaker: it passes what is applied to it until the current has
//! been over its rating for as long as its trip curve allows, and then opens.

use crate::fixed::{over, plus, product, quotient, sum, times};
use crate::quantity::{ElectricCurrent, ElectricPotential, Power, Time};
use crate::systems::electrical::{ComponentState, ElectricalComponent};
use vstd::prelude::*;

verus! {

/// One tenth, in raw units: the time in seconds after which an inverse-time
/// breaker trips at exactly its rated current.
pub const TENTH: i64 = 100_000;

/// How long a breaker bears an overcurrent before it opens.
#[derive(Clone, Copy, Debug, PartialEq, Eq, Structural)]
pub enum TripCurve {
    /// Opens as soon as the current is over the rating.
    Instantaneous,
    /// Opens once the current has been over the rating for the given time.
    ShortDelay(Time),
    /// Opens once the current has been over the rating for the given time.
    LongDelay(Time),
    /// Opens sooner the further the current is over the rating.
    InverseTime,
}

/// Time that an inverse-time breaker rated at `rating` bears a current
/// `current`: a tenth of a second over the square of the overload ratio.
pub open spec fn inverse_trip_time(current: int, rating: int) -> int {
    let overload_ratio = quotient(current, rating);
    quotient(TENTH as int, product(overload_ratio, overload_ratio))
}

/// The breaker as plain values: every quantity is a raw fixed-point value.
pub struct BreakerState {
    pub name: Seq<char>,
    pub rating: int,
    pub is_tripped: bool,
    pub input_voltage: int,
    pub input_power: int,
    pub input_current: int,
    pub trip_curve: TripCurve,
    pub overcurrent_time: int,
    pub auto_reset: bool,
    pub reset_delay: int,
    pub trip_time: int,
}

impl BreakerState {
    /// The current applied to the breaker is over its rating.
    pub open spec fn is_overloaded(self) -> bool {
        self.input_current > self.rating
    }

    /// The breaker is overloaded and has been for as long as its trip curve
    /// allows.
    pub open spec fn should_trip(self) -> bool {
        self.is_overloaded() && match self.trip_curve {
            TripCurve::Instantaneous => true,
            TripCurve::ShortDelay(delay) => self.overcurrent_time >= delay@,
            TripCurve::LongDelay(delay) => self.overcurrent_time >= delay@,
            TripCurve::InverseTime => self.overcurrent_time >= inverse_trip_time(
                self.input_current,
                self.rating,
            ),
        }
    }

    /// The breaker closed again, with its timers cleared.
    pub open spec fn reset(self) -> BreakerState {
        BreakerState { is_tripped: false, trip_time: 0, overcurrent_time: 0, ..self }
    }

    /// Time that a closed breaker has spent overloaded once a tick of `dt` is
    /// counted in: it grows while the overload lasts and starts over when the
    /// overload ends.
    pub open spec fn dwell_after(self, dt: int) -> int {
        if self.is_overloaded() {
            sum(self.overcurrent_time, dt)
        } else {
            0
        }
    }

    /// The state after a tick of `dt`.
    pub open spec fn step(self, dt: int) -> BreakerState {
        if self.is_tripped {
            if self.auto_reset {
                let waited = BreakerState { trip_time: sum(self.trip_time, dt), ..self };
                if waited.trip_time >= self.reset_delay {
                    waited.reset()
                } else {
                    waited
                }
            } else {
                self
            }
        } else {
            let timed = BreakerState { overcurrent_time: self.dwell_after(dt), ..self };
            if timed.should_trip() {
                BreakerState { is_tripped: true, trip_time: 0, ..timed }
            } else {
                timed
            }
        }
    }

    /// Voltage passed on: the applied voltage while closed, none while
    /// tripped.
    pub open spec fn output_voltage(self) -> int {
        if self.is_tripped {
            0
        } else {
            self.input_voltage
        }
    }

    /// Power passed on: the applied power while closed, none while tripped.
    pub open spec fn output_power(self) -> int {
        if self.is_tripped {
            0
        } else {
            self.input_power
        }
    }

    /// Current passed on: the applied current while closed, none while
    /// tripped.
    pub open spec fn output_current(self) -> int {
        if self.is_tripped {
            0
        } else {
            self.input_current
        }
    }
}

/// The state after one tick for each of the given time spans, in order.
pub open spec fn run(state: BreakerState, spans: Seq<int>) -> BreakerState
    decreases spans.len(),
{
    if spans.len() == 0 {
        state
    } else {
        run(state.step(spans[0]), spans.drop_first())
    }
}

/// A circuit breaker.
pub struct CircuitBreaker {
    name: String,
    rating: ElectricCurrent,
    is_tripped: bool,
    input_voltage: ElectricPotential,
    input_power: Power,
    input_current: ElectricCurrent,
    trip_curve: TripCurve,
    overcurrent_time: Time,
    auto_reset: bool,
    reset_delay: Time,
    trip_time: Time,
}

impl View for CircuitBreaker {
    type V = BreakerState;

    closed spec fn view(&self) -> BreakerState {
        BreakerState {
            name: self.name@,
            rating: self.rating@,
            is_tripped: self.is_tripped,
            input_voltage: self.input_voltage@,
            input_power: self.input_power@,
            input_current: self.input_current@,
            trip_curve: self.trip_curve,
            overcurrent_time: self.overcurrent_time@,
            auto_reset: self.auto_reset,
            reset_delay: self.reset_delay@,
            trip_time: self.trip_time@,
        }
    }
}

impl CircuitBreaker {
    /// A closed breaker with nothing applied to it and its timers at zero.
    pub fn new(
        name: &str,
        rating: ElectricCurrent,
        trip_curve: TripCurve,
        auto_reset: bool,
        reset_delay: Time,
    ) -> (made: Self)
        ensures
            made@ == (BreakerState {
                name: name@,
                rating: rating@,
                is_tripped: false,
                input_voltage: 0,
                input_power: 0,
                input_current: 0,
                trip_curve,
                overcurrent_time: 0,
                auto_reset,
                reset_delay: reset_delay@,
                trip_time: 0,
            }),
    {
        CircuitBreaker {
            name: name.to_owned(),
            rating,
            is_tripped: false,
            input_voltage: ElectricPotential::new(0),
            input_power: Power::new(0),
            input_current: ElectricCurrent::new(0),
            trip_curve,
            overcurrent_time: Time::new(0),
            auto_reset,
            reset_delay,
            trip_time: Time::new(0),
        }
    }

    /// Close the breaker by hand and clear its timers.
    pub fn reset(&mut self)
        ensures
            final(self)@ == old(self)@.reset(),
    {
        self.is_tripped = false;
        self.trip_time = Time::new(0);
        self.overcurrent_time = Time::new(0);
    }

    /// Whether the breaker is open.
    pub fn is_tripped(&self) -> (tripped: bool)
        ensures
            tripped == self@.is_tripped,
    {
        self.is_tripped
    }

    /// The breaker's name.
    pub fn name(&self) -> (name: &String)
        ensures
            name@ == self@.name,
    {
        &self.name
    }

    /// Whether the applied current and the time spent overloaded call for the
    /// breaker to open. The length of the tick plays no part.
    pub fn should_trip(&self, dt: Time) -> (trip: bool)
        ensures
            trip == self@.should_trip(),
    {
        if self.input_current.micro <= self.rating.micro {
            return false;
        }
        match self.trip_curve {
            TripCurve::Instantaneous => true,
            TripCurve::ShortDelay(delay) => self.overcurrent_time.micro >= delay.micro,
            TripCurve::LongDelay(delay) => self.overcurrent_time.micro >= delay.micro,
            TripCurve::InverseTime => {
                let overload_ratio: i64 = over(self.input_current.micro, self.rating.micro);
                self.overcurrent_time.micro >= over(TENTH, times(overload_ratio, overload_ratio))
            },
        }
    }
}

impl ElectricalComponent for CircuitBreaker {
    open spec fn state(&self) -> ComponentState {
        ComponentState::ProtectiveDevice(self@)
    }

    /// Advance the breaker by `dt`.
    fn update(&mut self, dt: Time)
        ensures
            final(self)@ == old(self)@.step(dt@),
    {
        if self.is_tripped {
            if self.auto_reset {
                self.trip_time = Time::new(plus(self.trip_time.micro, dt.micro));
                if self.trip_time.micro >= self.reset_delay.micro {
                    self.reset();
                }
            }
            return ;
        }
        if self.input_current.micro > self.rating.micro {
            self.overcurrent_time = Time::new(plus(self.overcurrent_time.micro, dt.micro));
        } else {
            self.overcurrent_time = Time::new(0);
        }
        if self.should_trip(dt) {
            self.is_tripped = true;
            self.trip_time = Time::new(0);
        }
    }

    /// Power passed on: the applied power while closed, none while tripped.
    fn get_output_power(&self) -> (power: Power)
        ensures
            power@ == self@.output_power(),
    {
        if self.is_tripped {
            Power::new(0)
        } else {
            self.input_power
        }
    }

    /// Latch the power applied to the breaker, tripped or not.
    fn set_input_power(&mut self, power: Power)
        ensures
            final(self)@ == (BreakerState { input_power: power@, ..old(self)@ }),
    {
        self.input_power = power;
    }

    /// Voltage passed on: the applied voltage while closed, none while
    /// tripped.
    fn get_output_voltage(&self) -> (voltage: ElectricPotential)
        ensures
            voltage@ == self@.output_voltage(),
    {
        if self.is_tripped {
            ElectricPotential::new(0)
        } else {
            self.input_voltage
        }
    }

    /// Latch the voltage applied to the breaker, tripped or not.
    fn set_input_voltage(&mut self, voltage: ElectricPotential)
        ensures
            final(self)@ == (BreakerState { input_voltage: voltage@, ..old(self)@ }),
    {
        self.input_voltage = voltage;
    }

    /// Current passed on: the applied current while closed, none while
    /// tripped.
    fn get_output_current(&self) -> (current: ElectricCurrent)
        ensures
            current@ == self@.output_current(),
    {
        if self.is_tripped {
            ElectricCurrent::new(0)
        } else {
            self.input_current
        }
    }

    /// Current into the breaker: the same as the current out of it.
    fn get_input_current(&self) -> (current: ElectricCurrent)
        ensures
            current@ == self@.output_current(),
    {
        self.get_output_current()
    }

    /// Latch the current applied to the breaker, tripped or not.
    fn set_input_current(&mut self, current: ElectricCurrent)
        ensures
            final(self)@ == (BreakerState { input_current: current@, ..old(self)@ }),
    {
        self.input_current = current;
    }
}

/// A closed instantaneous breaker opens on the very tick on which the current
/// applied to it is over its rating, and stays closed on every tick on which
/// it is not.
pub proof fn lemma_instantaneous_trips_at_once(state: BreakerState, dt: int)
    requires
        !state.is_tripped,
        state.trip_curve == TripCurve::Instantaneous,
    ensures
        state.step(dt).is_tripped <==> state.input_current > state.rating,
{
}

/// A closed breaker with a fixed delay opens on the tick that brings the time
/// it has spent overloaded up to the delay, and on no earlier tick. Until then
/// that time grows by each tick's length while the overload lasts, and starts
/// over when the overload ends.
pub proof fn lemma_delayed_trips_after_dwell(state: BreakerState, dt: int, delay: Time)
    requires
        !state.is_tripped,
        state.trip_curve == TripCurve::ShortDelay(delay) || state.trip_curve
            == TripCurve::LongDelay(delay),
    ensures
        state.step(dt).is_tripped <==> state.input_current > state.rating && sum(
            state.overcurrent_time,
            dt,
        ) >= delay@,
        state.step(dt).overcurrent_time == state.dwell_after(dt),
        state.input_current > state.rating ==> state.step(dt).overcurrent_time == sum(
            state.overcurrent_time,
            dt,
        ),
        state.input_current <= state.rating ==> state.step(dt).overcurrent_time == 0,
{
}

/// A tripped breaker without automatic reset does not change in a tick.
pub proof fn lemma_tripped_stays_tripped(state: BreakerState, dt: int)
    requires
        state.is_tripped,
        !state.auto_reset,
    ensures
        state.step(dt) == state,
{
}

/// A tripped breaker without automatic reset stays tripped through any number
/// of ticks of any lengths: only a reset by hand closes it.
pub proof fn lemma_only_manual_reset_closes(state: BreakerState, spans: Seq<int>)
    requires
        state.is_tripped,
        !state.auto_reset,
    ensures
        run(state, spans) == state,
        run(state, spans).is_tripped,
        !state.reset().is_tripped,
    decreases spans.len(),
{
    if spans.len() > 0 {
        lemma_only_manual_reset_closes(state, spans.drop_first());
    }
}

/// A tripped breaker passes nothing on, whatever is applied to it.
pub proof fn lemma_tripped_passes_nothing(state: BreakerState)
    requires
        state.is_tripped,
    ensures
        state.output_voltage() == 0,
        state.output_power() == 0,
        state.output_current() == 0,
{
}

/// For a breaker without automatic reset, a tick of no length that follows a
/// tick changes nothing: closed or tripped, the breaker has already made up
/// its mind on what is applied to it.
pub proof fn lemma_zero_tick_after_tick_changes_nothing(state: BreakerState, dt: int)
    requires
        !state.auto_reset,
    ensures
        state.step(dt).step(0) == state.step(dt),
{
}

} // verus!
