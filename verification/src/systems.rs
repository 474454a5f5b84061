//! The aircraft's subsystems, and the orchestrator that assembles them and
//! drives them tick by tick.

pub mod common;
pub mod electrical;
pub mod hydraulic;
pub mod indicating_recording_systems;

use crate::fixed::{plus, sum, SCALE};
use crate::quantity::{
    AngularVelocity, ElectricCurrent, ElectricPotential, ElectricalResistance, Frequency, Power,
    Ratio, Time,
};
use crate::systems::electrical::components::ac::generator::{
    synchronous_speed, Generator, GeneratorState,
};
use crate::systems::electrical::components::dc::generic_dc_component::{
    nominal_resistance, GenericDcComponent, LoadState, VoltageResponse,
};
use crate::systems::electrical::components::shared::bus::{Bus, BusState};
use crate::systems::electrical::components::shared::circuit_breaker::{
    BreakerState, CircuitBreaker, TripCurve,
};
use crate::systems::electrical::{
    lemma_connect_to_unwired_node, overloaded, reported, Command, Component, ComponentState,
    ElectricalSystem, NetworkState, NodeHandle, WireState, NEGLIGIBLE_RESISTANCE,
};
use vstd::prelude::*;

verus! {

/// Time after which the main generator is started: three milliseconds, in raw
/// seconds.
pub const GENERATOR_START_DELAY: i64 = 3_000;

/// Mechanical power given to the main generator when it is started: eighty
/// kilowatts, in raw watts.
pub const DRIVE_POWER: i64 = 80_000_000_000;

/// Drive speed given to the main generator when it is started: six thousand
/// revolutions per minute, in raw units.
pub const DRIVE_SPEED: i64 = 6_000_000_000;

/// Wire current above which a tick reports the wire: twenty amperes, in raw
/// units.
pub const OVERCURRENT_LIMIT: i64 = 20_000_000;

/// The orchestrator as plain values.
pub struct AircraftState {
    pub network: NetworkState,
    pub elapsed_time: int,
    pub generator_node: int,
    pub generator_on: bool,
}

impl AircraftState {
    /// Time since assembly once a tick of `dt` is counted in.
    pub open spec fn elapsed_after(self, dt: int) -> int {
        sum(self.elapsed_time, dt)
    }

    /// The main generator is started in a tick of `dt`: it has not been
    /// started before, the start delay is over, and a generator stands at its
    /// node.
    pub open spec fn starts_generator(self, dt: int) -> bool {
        &&& !self.generator_on
        &&& self.elapsed_after(dt) > GENERATOR_START_DELAY as int
        &&& self.network.has_node(self.generator_node)
        &&& self.network.components[self.generator_node] is PowerSource
    }

    /// The network as a tick of `dt` finds it, after the main generator has
    /// been started if this is the tick for it.
    pub open spec fn network_before_tick(self, dt: int) -> NetworkState {
        if self.starts_generator(dt) {
            self.network.told(self.generator_node, Command::TurnOn).told(
                self.generator_node,
                Command::SetMechanicalInput(
                    Power { micro: DRIVE_POWER },
                    AngularVelocity { micro: DRIVE_SPEED },
                ),
            )
        } else {
            self.network
        }
    }

    /// The state after a tick of `dt`.
    pub open spec fn step(self, dt: int) -> AircraftState {
        let network = self.network_before_tick(dt);
        AircraftState {
            network: network.tick(network.tick_order().unwrap(), dt),
            elapsed_time: self.elapsed_after(dt),
            generator_node: self.generator_node,
            generator_on: self.generator_on || self.starts_generator(dt),
        }
    }
}

/// What happened in one tick that the crew should hear of.
pub struct TickReport {
    /// The main generator was started in this tick.
    pub generator_started: bool,
    /// The wires whose current is over the limit, each as source, target and
    /// current.
    pub overcurrents: Vec<(NodeHandle, NodeHandle, ElectricCurrent)>,
}

/// The main generator as it is installed.
pub open spec fn main_generator() -> ComponentState {
    ComponentState::PowerSource(
        GeneratorState {
            num_poles: 2_000_000,
            rated_power: 90_000_000_000,
            rated_voltage: 115_000_000,
            rated_frequency: 400_000_000,
            efficiency: 950_000,
            internal_resistance: 50_000,
            mechanical_input_power: 0,
            rpm: synchronous_speed(400_000_000, 2_000_000),
            output_power: 0,
            output_voltage: 0,
            spin_up_time: 0,
            current_rpm: 0,
            is_on: false,
            time_on: 0,
            phase_count: 3,
        },
    )
}

/// The main bus as it is installed.
pub open spec fn main_bus() -> ComponentState {
    ComponentState::Bus(BusState { voltage: 28_000_000, power: 0 })
}

/// A closed breaker of the given name, rating and delay, with or without
/// automatic reset, that nothing has been applied to yet.
pub open spec fn fresh_breaker(
    name: Seq<char>,
    rating: int,
    delay: i64,
    auto_reset: bool,
    reset_delay: int,
) -> ComponentState {
    ComponentState::ProtectiveDevice(
        BreakerState {
            name,
            rating,
            is_tripped: false,
            input_voltage: 0,
            input_power: 0,
            input_current: 0,
            trip_curve: TripCurve::ShortDelay(Time { micro: delay }),
            overcurrent_time: 0,
            auto_reset,
            reset_delay,
            trip_time: 0,
        },
    )
}

/// A load for 28 volts of the given name, power, least voltage, response and
/// power factor, switched off, that nothing has been applied to yet.
pub open spec fn fresh_load(
    name: Seq<char>,
    nominal_power: int,
    min_voltage: int,
    voltage_response: VoltageResponse,
    power_factor: int,
) -> ComponentState {
    ComponentState::Load(
        LoadState {
            name,
            nominal_voltage: 28_000_000,
            nominal_power,
            resistance: nominal_resistance(28_000_000, nominal_power),
            min_voltage,
            max_voltage: 32_000_000,
            voltage_response,
            power_factor,
            input_voltage: 0,
            input_power: 0,
            input_current: 0,
            is_on: false,
            load_factor: SCALE as int,
        },
    )
}

/// The network's nodes as they are installed, before any wire is laid.
pub open spec fn installed_components() -> Seq<ComponentState> {
    seq![
        main_generator(),
        main_bus(),
        fresh_breaker("Avionics CB"@, 15_000_000, 200_000, false, 0),
        fresh_breaker("Lights CB"@, 10_000_000, 100_000, true, 5_000_000),
        fresh_load("Test Display"@, 120_000_000, 21_000_000, VoltageResponse::Regulated, 850_000),
        fresh_load("Test Light"@, 200_000_000, 20_000_000, VoltageResponse::Binary, 900_000),
    ]
}

/// The names of the network's nodes.
pub open spec fn installed_names() -> Seq<Seq<char>> {
    seq![
        "Main Generator"@,
        "Main Bus"@,
        "Avionics CB"@,
        "Lights CB"@,
        "Test Display"@,
        "Test Light"@,
    ]
}

/// A wire that carries no current yet.
pub open spec fn idle_wire(from: int, to: int, resistance: int) -> WireState {
    WireState { from, to, resistance, current: 0 }
}

/// The network's wires as they are laid: generator to bus, bus to each
/// breaker, each breaker to its load.
pub open spec fn installed_wires() -> Seq<WireState> {
    seq![
        idle_wire(0, 1, NEGLIGIBLE_RESISTANCE as int),
        idle_wire(1, 2, NEGLIGIBLE_RESISTANCE as int),
        idle_wire(1, 3, NEGLIGIBLE_RESISTANCE as int),
        idle_wire(2, 4, 10_000),
        idle_wire(3, 5, 20_000),
    ]
}

/// The electrical network as `E170Systems::new` assembles it.
pub open spec fn installed_network() -> NetworkState {
    NetworkState {
        names: installed_names(),
        components: installed_components(),
        wires: installed_wires(),
    }
}

/// The aircraft's systems, assembled once and advanced tick by tick.
pub struct E170Systems {
    electrical_system: ElectricalSystem,
    elapsed_time: Time,
    generator_node: NodeHandle,
    generator_on: bool,
}

impl View for E170Systems {
    type V = AircraftState;

    closed spec fn view(&self) -> AircraftState {
        AircraftState {
            network: self.electrical_system@,
            elapsed_time: self.elapsed_time@,
            generator_node: self.generator_node@,
            generator_on: self.generator_on,
        }
    }
}

impl E170Systems {
    /// The electrical network is well formed.
    pub closed spec fn wf(&self) -> bool {
        self.electrical_system.wf()
    }

    /// The aircraft with its electrical network assembled: the main generator
    /// feeds the main bus, the bus feeds the avionics and lights breakers, and
    /// each breaker feeds one load. Nothing is switched on.
    pub fn new() -> (made: E170Systems)
        ensures
            made.wf(),
            made@.elapsed_time == 0,
            made@.generator_node == 0,
            !made@.generator_on,
            made@.network == installed_network(),
    {
        let mut electrical_system = ElectricalSystem::new();

        let main_generator = Generator::new(
            Ratio::new(2_000_000),
            Power::new(90_000_000_000),
            ElectricPotential::new(115_000_000),
            Frequency::new(400_000_000),
            Ratio::new(950_000),
            ElectricalResistance::new(50_000),
            Time::new(0),
            3,
        );
        let generator_node = electrical_system.add_component(
            "Main Generator",
            Component::PowerSource(main_generator),
        );

        let main_bus = Bus::new(ElectricPotential::new(28_000_000), Power::new(0));
        let main_bus_node = electrical_system.add_component("Main Bus", Component::Bus(main_bus));

        proof {
            lemma_connect_to_unwired_node(electrical_system@, 0, 1, NEGLIGIBLE_RESISTANCE as int);
        }
        let _ = electrical_system.connect_no_resistance(generator_node, main_bus_node);

        let avionics_cb = CircuitBreaker::new(
            "Avionics CB",
            ElectricCurrent::new(15_000_000),
            TripCurve::ShortDelay(Time::new(200_000)),
            false,
            Time::new(0),
        );
        let avionics_cb_node = electrical_system.add_component(
            "Avionics CB",
            Component::ProtectiveDevice(avionics_cb),
        );

        let lights_cb = CircuitBreaker::new(
            "Lights CB",
            ElectricCurrent::new(10_000_000),
            TripCurve::ShortDelay(Time::new(100_000)),
            true,
            Time::new(5_000_000),
        );
        let lights_cb_node = electrical_system.add_component(
            "Lights CB",
            Component::ProtectiveDevice(lights_cb),
        );

        proof {
            lemma_connect_to_unwired_node(electrical_system@, 1, 2, NEGLIGIBLE_RESISTANCE as int);
        }
        let _ = electrical_system.connect_no_resistance(main_bus_node, avionics_cb_node);
        proof {
            lemma_connect_to_unwired_node(electrical_system@, 1, 3, NEGLIGIBLE_RESISTANCE as int);
        }
        let _ = electrical_system.connect_no_resistance(main_bus_node, lights_cb_node);

        let test_display = GenericDcComponent::new(
            "Test Display",
            ElectricPotential::new(28_000_000),
            Power::new(120_000_000),
            ElectricPotential::new(21_000_000),
            ElectricPotential::new(32_000_000),
            VoltageResponse::Regulated,
            Ratio::new(850_000),
        );
        let test_display_node = electrical_system.add_component(
            "Test Display",
            Component::Load(test_display),
        );

        let test_light = GenericDcComponent::new(
            "Test Light",
            ElectricPotential::new(28_000_000),
            Power::new(200_000_000),
            ElectricPotential::new(20_000_000),
            ElectricPotential::new(32_000_000),
            VoltageResponse::Binary,
            Ratio::new(900_000),
        );
        let test_light_node = electrical_system.add_component(
            "Test Light",
            Component::Load(test_light),
        );

        proof {
            lemma_connect_to_unwired_node(electrical_system@, 2, 4, 10_000);
        }
        let _ = electrical_system.connect_with_wire(
            avionics_cb_node,
            test_display_node,
            ElectricalResistance::new(10_000),
        );
        proof {
            lemma_connect_to_unwired_node(electrical_system@, 3, 5, 20_000);
        }
        let _ = electrical_system.connect_with_wire(
            lights_cb_node,
            test_light_node,
            ElectricalResistance::new(20_000),
        );

        proof {
            assert(electrical_system@.names =~= installed_names());
            assert(electrical_system@.components =~= installed_components());
            assert(electrical_system@.wires =~= installed_wires());
        }
        E170Systems {
            electrical_system,
            elapsed_time: Time::new(0),
            generator_node,
            generator_on: false,
        }
    }

    /// The electrical network, to read.
    pub fn electrical_system(&self) -> (network: &ElectricalSystem)
        ensures
            network@ == self@.network,
            self.wf() ==> network.wf(),
    {
        &self.electrical_system
    }

    /// Advance the aircraft by `dt`. Once the start delay is over the main
    /// generator is switched on and given its drive, once only. Then the
    /// electrical network moves forward by `dt`, and the wires that carry
    /// more than the overcurrent limit are reported.
    pub fn update(&mut self, dt: Time) -> (report: TickReport)
        requires
            old(self).wf(),
        ensures
            final(self).wf(),
            report.generator_started == old(self)@.starts_generator(dt@),
            reported(report.overcurrents@) == overloaded(
                final(self)@.network.wires,
                OVERCURRENT_LIMIT as int,
            ),
            final(self)@ == old(self)@.step(dt@),
    {
        self.elapsed_time = Time::new(plus(self.elapsed_time.micro, dt.micro));
        let mut generator_started: bool = false;
        if !self.generator_on && self.elapsed_time.micro > GENERATOR_START_DELAY {
            if self.electrical_system.command(self.generator_node, Command::TurnOn).is_ok() {
                let _ = self.electrical_system.command(
                    self.generator_node,
                    Command::SetMechanicalInput(Power::new(DRIVE_POWER), AngularVelocity::new(DRIVE_SPEED)),
                );
                self.generator_on = true;
                generator_started = true;
            }
        }
        self.electrical_system.update_system(dt);
        let overcurrents = self.electrical_system.check_overcurrent(
            ElectricCurrent::new(OVERCURRENT_LIMIT),
        );
        TickReport { generator_started, overcurrents }
    }
}

} // verus!
