//! A single-rod linear actuator: two fluid chambers, one on each side of the
//! piston, fed through a metering valve and stepped by explicit Euler
//! integration.

use crate::fixed::{
    abs, bounded, clamp, difference, lemma_product_by_zero, magnitude, minus, negate, negation,
    over, plus, product, quotient, sum, times, SCALE,
};
use crate::quantity::{
    Acceleration, Coefficient, DynamicViscosity, Force, Length, MassDensity, Pressure, Ratio, Time,
    Velocity, Volume, VolumeRate,
};
use vstd::prelude::*;

verus! {

/// Pi to six decimal places, in raw units.
pub const PI: i64 = 3_141_593;

/// One half, in raw units.
pub const HALF: i64 = 500_000;

/// Two, in raw units.
pub const TWO: i64 = 2_000_000;

/// Mass that the net force accelerates: one kilogram, in raw tonnes.
pub const EFFECTIVE_MASS: i64 = 1_000;

/// Speed below which the piston counts as standing still: a micrometre per
/// second, in raw millimetres per second.
pub const STICTION_SPEED: i64 = 1_000;

/// Why a set of actuator parameters was refused.
#[derive(Clone, Copy, Debug, PartialEq, Eq, Structural)]
pub enum ActuatorError {
    /// The bore diameter is zero or negative.
    NonPositiveBore,
    /// The rod diameter is negative, or the rod is no thinner than the bore.
    InvalidRod,
    /// The stroke length is zero or negative.
    NonPositiveStroke,
    /// The static friction is negative.
    NegativeFriction,
}

/// What is wrong with a set of actuator parameters, if anything is: the first
/// fault found among a bore that is not positive, a rod that is negative or
/// no thinner than the bore, a stroke that is not positive, and a negative
/// static friction.
pub open spec fn parameter_fault(
    bore_diameter: int,
    rod_diameter: int,
    stroke_length: int,
    static_friction: int,
) -> Option<ActuatorError> {
    if bore_diameter <= 0 {
        Some(ActuatorError::NonPositiveBore)
    } else if rod_diameter < 0 || rod_diameter >= bore_diameter {
        Some(ActuatorError::InvalidRod)
    } else if stroke_length <= 0 {
        Some(ActuatorError::NonPositiveStroke)
    } else if static_friction < 0 {
        Some(ActuatorError::NegativeFriction)
    } else {
        None
    }
}

/// Area of a circle of diameter `diameter`, both raw.
pub open spec fn circle_area(diameter: int) -> int {
    let radius = quotient(diameter, TWO as int);
    product(product(PI as int, radius), radius)
}

/// Change of pressure in a chamber of volume `volume` that takes in `net_flow`
/// for a time `dt`, in a fluid of bulk modulus `bulk_modulus`. An empty chamber
/// holds no fluid to compress and keeps its pressure.
pub open spec fn pressure_change(bulk_modulus: int, net_flow: int, dt: int, volume: int) -> int {
    if volume > 0 {
        negation(product(bulk_modulus, quotient(product(net_flow, dt), volume)))
    } else {
        0
    }
}

/// Friction on a piston moving at `velocity` under a driving force `driving`.
/// A piston that stands still resists with whatever the drive applies, up to
/// the static friction; a moving piston is opposed in proportion to its speed.
pub open spec fn friction_force(
    velocity: int,
    driving: int,
    static_friction: int,
    dynamic_coefficient: int,
) -> int {
    if magnitude(velocity) < STICTION_SPEED as int {
        bounded(driving, negation(static_friction), static_friction)
    } else if velocity > 0 {
        product(dynamic_coefficient, magnitude(velocity))
    } else {
        negation(product(dynamic_coefficient, magnitude(velocity)))
    }
}

/// The actuator as plain numbers: every field is a raw fixed-point value.
pub struct ActuatorState {
    pub bore_diameter: int,
    pub rod_diameter: int,
    pub stroke_length: int,
    pub position: int,
    pub velocity: int,
    pub acceleration: int,
    pub bulk_modulus: int,
    pub density: int,
    pub viscosity: int,
    pub max_flow_rate: int,
    pub valve_opening: int,
    pub cap_pressure: int,
    pub rod_pressure: int,
    pub cap_volume: int,
    pub rod_volume: int,
    pub internal_leakage: int,
    pub external_leakage: int,
    pub static_friction: int,
    pub dynamic_friction: int,
    pub external_force: int,
}

impl ActuatorState {
    /// Piston area on the cap side.
    pub open spec fn cap_area(self) -> int {
        circle_area(self.bore_diameter)
    }

    /// Piston area on the rod side: the bore less the rod.
    pub open spec fn rod_area(self) -> int {
        difference(circle_area(self.bore_diameter), circle_area(self.rod_diameter))
    }

    /// Volume of the cap-end chamber with the piston at `position`.
    pub open spec fn cap_volume_at(self, position: int) -> int {
        product(self.cap_area(), position)
    }

    /// Volume of the rod-end chamber with the piston at `position`.
    pub open spec fn rod_volume_at(self, position: int) -> int {
        product(self.rod_area(), difference(self.stroke_length, position))
    }

    /// The parameters are physical, the piston is inside the cylinder, the
    /// valve opening is a fraction, the chamber volumes match the piston's
    /// position, and velocity and pressures are raw values that can be held.
    pub open spec fn wf(self) -> bool {
        &&& i64::MIN as int <= self.velocity <= i64::MAX as int
        &&& i64::MIN as int <= self.cap_pressure <= i64::MAX as int
        &&& i64::MIN as int <= self.rod_pressure <= i64::MAX as int
        &&& self.bore_diameter > 0
        &&& 0 <= self.rod_diameter < self.bore_diameter
        &&& 0 < self.stroke_length <= i64::MAX as int
        &&& self.static_friction >= 0
        &&& 0 <= self.position <= self.stroke_length
        &&& 0 <= self.valve_opening <= SCALE as int
        &&& self.cap_volume == self.cap_volume_at(self.position)
        &&& self.rod_volume == self.rod_volume_at(self.position)
    }

    /// Nothing drives the piston: the valve is shut, no force is applied from
    /// outside, both chambers are without pressure and the piston stands still.
    pub open spec fn at_rest(self) -> bool {
        &&& self.valve_opening == 0
        &&& self.external_force == 0
        &&& self.cap_pressure == 0
        &&& self.rod_pressure == 0
        &&& self.velocity == 0
        &&& self.acceleration == 0
    }

    /// Flow that the valve sends into the cap-end chamber.
    pub open spec fn cap_valve_flow(self) -> int {
        if self.valve_opening > 0 {
            product(self.max_flow_rate, self.valve_opening)
        } else {
            0
        }
    }

    /// Flow that the valve sends into the rod-end chamber.
    pub open spec fn rod_valve_flow(self) -> int {
        if self.valve_opening < 0 {
            negation(product(self.max_flow_rate, self.valve_opening))
        } else {
            0
        }
    }

    /// Flow that leaks past the piston, in proportion to the pressure across it.
    pub open spec fn internal_leak(self) -> int {
        product(self.internal_leakage, difference(self.cap_pressure, self.rod_pressure))
    }

    /// Net flow into the cap-end chamber: valve flow less both leakages.
    pub open spec fn net_cap_flow(self) -> int {
        difference(
            difference(self.cap_valve_flow(), self.internal_leak()),
            product(self.external_leakage, self.cap_pressure),
        )
    }

    /// Net flow into the rod-end chamber: valve flow less both leakages.
    pub open spec fn net_rod_flow(self) -> int {
        difference(
            difference(self.rod_valve_flow(), self.internal_leak()),
            product(self.external_leakage, self.rod_pressure),
        )
    }

    /// Cap-end pressure after a step of `dt`.
    pub open spec fn next_cap_pressure(self, dt: int) -> int {
        sum(
            self.cap_pressure,
            pressure_change(self.bulk_modulus, self.net_cap_flow(), dt, self.cap_volume),
        )
    }

    /// Rod-end pressure after a step of `dt`.
    pub open spec fn next_rod_pressure(self, dt: int) -> int {
        sum(
            self.rod_pressure,
            pressure_change(self.bulk_modulus, self.net_rod_flow(), dt, self.rod_volume),
        )
    }

    /// Force that drives the piston after the pressures have moved: the
    /// hydraulic force of the two chambers plus the external force.
    pub open spec fn driving_force(self, dt: int) -> int {
        sum(
            difference(
                product(self.next_cap_pressure(dt), self.cap_area()),
                product(self.next_rod_pressure(dt), self.rod_area()),
            ),
            self.external_force,
        )
    }

    /// Acceleration over a step of `dt`: the driving force less friction, on
    /// the effective mass.
    pub open spec fn step_acceleration(self, dt: int) -> int {
        let driving = self.driving_force(dt);
        let friction = friction_force(
            self.velocity,
            driving,
            self.static_friction,
            self.dynamic_friction,
        );
        quotient(difference(driving, friction), EFFECTIVE_MASS as int)
    }

    /// Velocity after a step of `dt`, before any end stop takes effect.
    pub open spec fn step_velocity(self, dt: int) -> int {
        sum(self.velocity, product(self.step_acceleration(dt), dt))
    }

    /// Position after a step of `dt`, before it is held inside the cylinder.
    pub open spec fn free_position(self, dt: int) -> int {
        let a = self.step_acceleration(dt);
        let v = self.step_velocity(dt);
        sum(
            self.position,
            sum(product(v, dt), product(product(product(HALF as int, a), dt), dt)),
        )
    }

    /// Position after a step of `dt`.
    pub open spec fn next_position(self, dt: int) -> int {
        bounded(self.free_position(dt), 0, self.stroke_length)
    }

    /// The piston ends the step against an end stop and still heading into it.
    pub open spec fn hits_stop(self, dt: int) -> bool {
        let x = self.next_position(dt);
        let v = self.step_velocity(dt);
        (x <= 0 && v < 0) || (x >= self.stroke_length && v > 0)
    }

    /// The state after a step of `dt`.
    pub open spec fn step(self, dt: int) -> ActuatorState {
        let x = self.next_position(dt);
        ActuatorState {
            position: x,
            velocity: if self.hits_stop(dt) {
                0
            } else {
                self.step_velocity(dt)
            },
            acceleration: if self.hits_stop(dt) {
                0
            } else {
                self.step_acceleration(dt)
            },
            cap_pressure: self.next_cap_pressure(dt),
            rod_pressure: self.next_rod_pressure(dt),
            cap_volume: self.cap_volume_at(x),
            rod_volume: self.rod_volume_at(x),
            ..self
        }
    }
}

/// A single-rod linear hydraulic actuator.
pub struct HydraulicActuator {
    bore_diameter: Length,
    rod_diameter: Length,
    stroke_length: Length,
    current_position: Length,
    current_velocity: Velocity,
    current_acceleration: Acceleration,
    fluid_bulk_modulus: Pressure,
    fluid_density: MassDensity,
    fluid_viscosity: DynamicViscosity,
    valve_max_flow_rate: VolumeRate,
    valve_opening: Ratio,
    cap_end_pressure: Pressure,
    rod_end_pressure: Pressure,
    cap_end_volume: Volume,
    rod_end_volume: Volume,
    internal_leakage_coefficient: Coefficient,
    external_leakage_coefficient: Coefficient,
    static_friction: Force,
    dynamic_friction_coefficient: Coefficient,
    external_force: Force,
}

impl View for HydraulicActuator {
    type V = ActuatorState;

    closed spec fn view(&self) -> ActuatorState {
        ActuatorState {
            bore_diameter: self.bore_diameter@,
            rod_diameter: self.rod_diameter@,
            stroke_length: self.stroke_length@,
            position: self.current_position@,
            velocity: self.current_velocity@,
            acceleration: self.current_acceleration@,
            bulk_modulus: self.fluid_bulk_modulus@,
            density: self.fluid_density@,
            viscosity: self.fluid_viscosity@,
            max_flow_rate: self.valve_max_flow_rate@,
            valve_opening: self.valve_opening@,
            cap_pressure: self.cap_end_pressure@,
            rod_pressure: self.rod_end_pressure@,
            cap_volume: self.cap_end_volume@,
            rod_volume: self.rod_end_volume@,
            internal_leakage: self.internal_leakage_coefficient@,
            external_leakage: self.external_leakage_coefficient@,
            static_friction: self.static_friction@,
            dynamic_friction: self.dynamic_friction_coefficient@,
            external_force: self.external_force@,
        }
    }
}

/// Area of a circle of the given raw diameter.
fn calculate_area(diameter: i64) -> (area: i64)
    ensures
        area as int == circle_area(diameter as int),
{
    let radius: i64 = over(diameter, TWO);
    times(times(PI, radius), radius)
}

impl HydraulicActuator {
    /// An actuator with the piston fully retracted, at rest, with the valve
    /// shut and no pressure in either chamber; or the fault in the
    /// parameters.
    pub fn new(
        bore_diameter: Length,
        rod_diameter: Length,
        stroke_length: Length,
        fluid_bulk_modulus: Pressure,
        fluid_density: MassDensity,
        fluid_viscosity: DynamicViscosity,
        valve_max_flow_rate: VolumeRate,
        static_friction: Force,
        dynamic_friction_coefficient: Coefficient,
        internal_leakage_coefficient: Coefficient,
        external_leakage_coefficient: Coefficient,
    ) -> (made: Result<Self, ActuatorError>)
        ensures
            match parameter_fault(bore_diameter@, rod_diameter@, stroke_length@, static_friction@) {
                Some(fault) => made == Err::<Self, ActuatorError>(fault),
                None => {
                    &&& made is Ok
                    &&& made->Ok_0@ == Self::initial(
                        bore_diameter@,
                        rod_diameter@,
                        stroke_length@,
                        fluid_bulk_modulus@,
                        fluid_density@,
                        fluid_viscosity@,
                        valve_max_flow_rate@,
                        static_friction@,
                        dynamic_friction_coefficient@,
                        internal_leakage_coefficient@,
                        external_leakage_coefficient@,
                    )
                    &&& made->Ok_0@.wf()
                    &&& made->Ok_0@.at_rest()
                },
            },
    {
        if bore_diameter.micro <= 0 {
            return Err(ActuatorError::NonPositiveBore);
        }
        if rod_diameter.micro < 0 || rod_diameter.micro >= bore_diameter.micro {
            return Err(ActuatorError::InvalidRod);
        }
        if stroke_length.micro <= 0 {
            return Err(ActuatorError::NonPositiveStroke);
        }
        if static_friction.micro < 0 {
            return Err(ActuatorError::NegativeFriction);
        }
        let cap_end_area: i64 = calculate_area(bore_diameter.micro);
        let rod_end_area: i64 = minus(cap_end_area, calculate_area(rod_diameter.micro));
        let cap_end_volume: i64 = times(cap_end_area, 0);
        let rod_end_volume: i64 = times(rod_end_area, minus(stroke_length.micro, 0));
        Ok(
            HydraulicActuator {
                bore_diameter,
                rod_diameter,
                stroke_length,
                current_position: Length::new(0),
                current_velocity: Velocity::new(0),
                current_acceleration: Acceleration::new(0),
                fluid_bulk_modulus,
                fluid_density,
                fluid_viscosity,
                valve_max_flow_rate,
                valve_opening: Ratio::new(0),
                cap_end_pressure: Pressure::new(0),
                rod_end_pressure: Pressure::new(0),
                cap_end_volume: Volume::new(cap_end_volume),
                rod_end_volume: Volume::new(rod_end_volume),
                internal_leakage_coefficient,
                external_leakage_coefficient,
                static_friction,
                dynamic_friction_coefficient,
                external_force: Force::new(0),
            },
        )
    }

    /// The state that `new` gives an actuator of the given parameters.
    pub open spec fn initial(
        bore_diameter: int,
        rod_diameter: int,
        stroke_length: int,
        bulk_modulus: int,
        density: int,
        viscosity: int,
        max_flow_rate: int,
        static_friction: int,
        dynamic_friction: int,
        internal_leakage: int,
        external_leakage: int,
    ) -> ActuatorState {
        let bare = ActuatorState {
            bore_diameter,
            rod_diameter,
            stroke_length,
            position: 0,
            velocity: 0,
            acceleration: 0,
            bulk_modulus,
            density,
            viscosity,
            max_flow_rate,
            valve_opening: 0,
            cap_pressure: 0,
            rod_pressure: 0,
            cap_volume: 0,
            rod_volume: 0,
            internal_leakage,
            external_leakage,
            static_friction,
            dynamic_friction,
            external_force: 0,
        };
        ActuatorState {
            cap_volume: bare.cap_volume_at(0),
            rod_volume: bare.rod_volume_at(0),
            ..bare
        }
    }

    /// Every actuator is well formed.
    #[verifier::type_invariant]
    closed spec fn is_well_formed(self) -> bool {
        self@.wf()
    }

    /// Command the valve. The opening is held within `[0, 1]`.
    pub fn set_valve_opening(&mut self, opening: Ratio)
        ensures
            final(self)@.wf(),
            final(self)@ == (ActuatorState {
                valve_opening: bounded(opening@, 0, SCALE as int),
                ..old(self)@
            }),
    {
        proof {
            use_type_invariant(&*self);
        }
        self.valve_opening = Ratio::new(clamp(opening.micro, 0, SCALE));
    }

    /// Apply a force to the rod from outside.
    pub fn set_external_force(&mut self, force: Force)
        ensures
            final(self)@.wf(),
            final(self)@ == (ActuatorState { external_force: force@, ..old(self)@ }),
    {
        proof {
            use_type_invariant(&*self);
        }
        self.external_force = force;
    }

    /// Offer a supply pressure. It reaches the cap-end chamber only while the
    /// valve is open.
    pub fn set_supply_pressure(&mut self, pressure: Pressure)
        ensures
            final(self)@.wf(),
            old(self)@.valve_opening > 0 ==> final(self)@ == (ActuatorState {
                cap_pressure: pressure@,
                ..old(self)@
            }),
            old(self)@.valve_opening <= 0 ==> final(self)@ == old(self)@,
    {
        proof {
            use_type_invariant(&*self);
        }
        if self.valve_opening.micro > 0 {
            self.cap_end_pressure = pressure;
        }
    }

    /// Advance the actuator by `delta_time`.
    pub fn update(&mut self, delta_time: Time)
        ensures
            final(self)@.wf(),
            final(self)@ == old(self)@.step(delta_time@),
    {
        proof {
            use_type_invariant(&*self);
        }
        let dt: i64 = delta_time.micro;
        let cap_end_area: i64 = calculate_area(self.bore_diameter.micro);
        let rod_end_area: i64 = minus(cap_end_area, calculate_area(self.rod_diameter.micro));

        let max_flow: i64 = times(self.valve_max_flow_rate.micro, self.valve_opening.micro);
        let delta_p: i64 = minus(self.cap_end_pressure.micro, self.rod_end_pressure.micro);
        let internal_leakage_flow: i64 = times(self.internal_leakage_coefficient.micro, delta_p);
        let cap_external_leakage_flow: i64 = times(
            self.external_leakage_coefficient.micro,
            self.cap_end_pressure.micro,
        );
        let rod_external_leakage_flow: i64 = times(
            self.external_leakage_coefficient.micro,
            self.rod_end_pressure.micro,
        );

        let cap_end_flow: i64 = if self.valve_opening.micro > 0 {
            max_flow
        } else {
            0
        };
        let rod_end_flow: i64 = if self.valve_opening.micro < 0 {
            negate(max_flow)
        } else {
            0
        };

        let net_cap_flow: i64 = minus(
            minus(cap_end_flow, internal_leakage_flow),
            cap_external_leakage_flow,
        );
        let net_rod_flow: i64 = minus(
            minus(rod_end_flow, internal_leakage_flow),
            rod_external_leakage_flow,
        );

        let cap_pressure_change: i64 = if self.cap_end_volume.micro > 0 {
            negate(
                times(
                    self.fluid_bulk_modulus.micro,
                    over(times(net_cap_flow, dt), self.cap_end_volume.micro),
                ),
            )
        } else {
            0
        };
        let rod_pressure_change: i64 = if self.rod_end_volume.micro > 0 {
            negate(
                times(
                    self.fluid_bulk_modulus.micro,
                    over(times(net_rod_flow, dt), self.rod_end_volume.micro),
                ),
            )
        } else {
            0
        };

        let cap_pressure: i64 = plus(self.cap_end_pressure.micro, cap_pressure_change);
        let rod_pressure: i64 = plus(self.rod_end_pressure.micro, rod_pressure_change);

        let cap_force: i64 = times(cap_pressure, cap_end_area);
        let rod_force: i64 = times(rod_pressure, rod_end_area);
        let driving: i64 = plus(minus(cap_force, rod_force), self.external_force.micro);

        let speed: i64 = abs(self.current_velocity.micro);
        let friction: i64 = if speed < STICTION_SPEED {
            clamp(driving, negate(self.static_friction.micro), self.static_friction.micro)
        } else if self.current_velocity.micro > 0 {
            times(self.dynamic_friction_coefficient.micro, speed)
        } else {
            negate(times(self.dynamic_friction_coefficient.micro, speed))
        };

        let acceleration: i64 = over(minus(driving, friction), EFFECTIVE_MASS);
        let velocity: i64 = plus(self.current_velocity.micro, times(acceleration, dt));
        let position_change: i64 = plus(
            times(velocity, dt),
            times(times(times(HALF, acceleration), dt), dt),
        );
        let position: i64 = clamp(
            plus(self.current_position.micro, position_change),
            0,
            self.stroke_length.micro,
        );

        let stopped: bool = (position <= 0 && velocity < 0) || (position
            >= self.stroke_length.micro && velocity > 0);

        let motion: (i64, i64) = if stopped {
            (0, 0)
        } else {
            (velocity, acceleration)
        };
        *self = HydraulicActuator {
            bore_diameter: self.bore_diameter,
            rod_diameter: self.rod_diameter,
            stroke_length: self.stroke_length,
            current_position: Length::new(position),
            current_velocity: Velocity::new(motion.0),
            current_acceleration: Acceleration::new(motion.1),
            fluid_bulk_modulus: self.fluid_bulk_modulus,
            fluid_density: self.fluid_density,
            fluid_viscosity: self.fluid_viscosity,
            valve_max_flow_rate: self.valve_max_flow_rate,
            valve_opening: self.valve_opening,
            cap_end_pressure: Pressure::new(cap_pressure),
            rod_end_pressure: Pressure::new(rod_pressure),
            cap_end_volume: Volume::new(times(cap_end_area, position)),
            rod_end_volume: Volume::new(
                times(rod_end_area, minus(self.stroke_length.micro, position)),
            ),
            internal_leakage_coefficient: self.internal_leakage_coefficient,
            external_leakage_coefficient: self.external_leakage_coefficient,
            static_friction: self.static_friction,
            dynamic_friction_coefficient: self.dynamic_friction_coefficient,
            external_force: self.external_force,
        };
    }

    /// Where the piston is, measured from full retraction: never outside the
    /// cylinder.
    pub fn position(&self) -> (x: Length)
        ensures
            x@ == self@.position,
            0 <= x@ <= self@.stroke_length,
            self@.wf(),
    {
        proof {
            use_type_invariant(self);
        }
        self.current_position
    }

    /// How fast the piston moves; positive while extending.
    pub fn velocity(&self) -> (v: Velocity)
        ensures
            v@ == self@.velocity,
    {
        self.current_velocity
    }

    /// Pressure in the cap-end chamber.
    pub fn pressure(&self) -> (p: Pressure)
        ensures
            p@ == self@.cap_pressure,
    {
        self.cap_end_pressure
    }

    /// The piston's position as a fraction of the stroke.
    pub fn extension_ratio(&self) -> (r: Ratio)
        ensures
            r@ == quotient(self@.position, self@.stroke_length),
    {
        Ratio::new(over(self.current_position.micro, self.stroke_length.micro))
    }
}

/// The state after one step for each of the given time spans, in order.
pub open spec fn run(state: ActuatorState, spans: Seq<int>) -> ActuatorState
    decreases spans.len(),
{
    if spans.len() == 0 {
        state
    } else {
        run(state.step(spans[0]), spans.drop_first())
    }
}

/// A well-formed actuator is still well formed after a step.
pub proof fn lemma_step_preserves_wf(state: ActuatorState, dt: int)
    requires
        state.wf(),
    ensures
        state.step(dt).wf(),
{
}

/// An actuator at rest does not change in a step, however long the step is.
pub proof fn lemma_rest_is_unchanged_by_step(state: ActuatorState, dt: int)
    requires
        state.wf(),
        state.at_rest(),
    ensures
        state.step(dt) == state,
{
    assert(state.net_cap_flow() == 0 && state.net_rod_flow() == 0) by {
        assert(state.internal_leakage * 0 == 0);
        assert(state.external_leakage * 0 == 0);
    }
    assert(product(0, dt) == 0) by {
        assert(0 * dt == 0);
    }
    assert forall|volume: int| volume > 0 implies #[trigger] quotient(0, volume) == 0 by {
        assert(0int / volume == 0) by (nonlinear_arith)
            requires
                volume > 0,
        ;
    }
    assert(state.next_cap_pressure(dt) == 0 && state.next_rod_pressure(dt) == 0) by {
        assert(state.bulk_modulus * 0 == 0);
    }
    assert(state.driving_force(dt) == 0) by {
        assert(0 * state.cap_area() == 0);
        assert(0 * state.rod_area() == 0);
    }
    assert(state.step_acceleration(dt) == 0);
    assert(state.step_velocity(dt) == 0);
    assert(state.free_position(dt) == state.position) by {
        assert((HALF as int) * 0 == 0);
    }
}

/// An actuator at rest stays as it is through any number of steps of any
/// lengths.
pub proof fn lemma_rest_persists(state: ActuatorState, spans: Seq<int>)
    requires
        state.wf(),
        state.at_rest(),
    ensures
        run(state, spans) == state,
    decreases spans.len(),
{
    if spans.len() > 0 {
        lemma_rest_is_unchanged_by_step(state, spans[0]);
        lemma_rest_persists(state, spans.drop_first());
    }
}

/// The piston never leaves the cylinder. On the step whose free motion
/// carries a still-extending piston to the end of the stroke or past it, the
/// piston is held at the end of the stroke with velocity and acceleration
/// zeroed. On a step that ends strictly between the stops, velocity and
/// acceleration are those of free motion, untouched.
pub proof fn lemma_end_stop(state: ActuatorState, dt: int)
    requires
        state.wf(),
    ensures
        0 <= state.step(dt).position <= state.stroke_length,
        state.free_position(dt) >= state.stroke_length && state.step_velocity(dt) > 0 ==> {
            &&& state.step(dt).position == state.stroke_length
            &&& state.step(dt).velocity == 0
            &&& state.step(dt).acceleration == 0
        },
        0 < state.step(dt).position < state.stroke_length ==> {
            &&& state.step(dt).position == state.free_position(dt)
            &&& state.step(dt).velocity == state.step_velocity(dt)
            &&& state.step(dt).acceleration == state.step_acceleration(dt)
        },
{
}

/// A step of no length moves nothing: the piston stays where it is, both
/// pressures and both volumes stay as they are, and the velocity stays as it
/// is unless the piston stands against a stop and heads into it.
pub proof fn lemma_zero_step_moves_nothing(state: ActuatorState)
    requires
        state.wf(),
    ensures
        state.step(0).position == state.position,
        state.step(0).cap_pressure == state.cap_pressure,
        state.step(0).rod_pressure == state.rod_pressure,
        state.step(0).cap_volume == state.cap_volume,
        state.step(0).rod_volume == state.rod_volume,
        !state.hits_stop(0) ==> state.step(0).velocity == state.velocity,
{
    lemma_product_by_zero(state.net_cap_flow());
    lemma_product_by_zero(state.net_rod_flow());
    lemma_product_by_zero(state.bulk_modulus);
    lemma_product_by_zero(state.step_acceleration(0));
    lemma_product_by_zero(state.step_velocity(0));
    lemma_product_by_zero(product(HALF as int, state.step_acceleration(0)));
    assert forall|volume: int| volume > 0 implies #[trigger] quotient(0, volume) == 0 by {
        assert(0int / volume == 0) by (nonlinear_arith)
            requires
                volume > 0,
        ;
    }
}

} // verus!
