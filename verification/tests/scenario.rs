use e170_systems::quantity::{
    AngularVelocity, ElectricCurrent, ElectricPotential, ElectricalResistance, Frequency, Power,
    Ratio, Time,
};
use e170_systems::systems::electrical::components::ac::generator::Generator;
use e170_systems::systems::electrical::components::dc::generic_dc_component::{
    GenericDcComponent, VoltageResponse,
};
use e170_systems::systems::electrical::components::shared::bus::Bus;
use e170_systems::systems::electrical::components::shared::circuit_breaker::{
    CircuitBreaker, TripCurve,
};
use e170_systems::systems::electrical::{
    Command, Component, ElectricalComponent, ElectricalSystem, NodeHandle,
};

const UNIT: i64 = 1_000_000;

struct Feeder {
    network: ElectricalSystem,
    generator: NodeHandle,
    bus: NodeHandle,
    breaker: NodeHandle,
    load: NodeHandle,
}

fn feeder(bus_volts: i64) -> Feeder {
    let mut network = ElectricalSystem::new();
    let generator = network.add_component(
        "Generator",
        Component::PowerSource(Generator::new(
            Ratio::new(2 * UNIT),
            Power::new(90_000 * UNIT),
            ElectricPotential::new(115 * UNIT),
            Frequency::new(400 * UNIT),
            Ratio::new(950_000),
            ElectricalResistance::new(50_000),
            Time::new(0),
            3,
        )),
    );
    let bus = network.add_component(
        "Bus",
        Component::Bus(Bus::new(ElectricPotential::new(bus_volts * UNIT), Power::new(0))),
    );
    let breaker = network.add_component(
        "Circuit Breaker",
        Component::ProtectiveDevice(CircuitBreaker::new(
            "Circuit Breaker",
            ElectricCurrent::new(15 * UNIT),
            TripCurve::ShortDelay(Time::new(200_000)),
            false,
            Time::new(0),
        )),
    );
    let load = network.add_component(
        "Load",
        Component::Load(GenericDcComponent::new(
            "Load",
            ElectricPotential::new(28 * UNIT),
            Power::new(200 * UNIT),
            ElectricPotential::new(21 * UNIT),
            ElectricPotential::new(32 * UNIT),
            VoltageResponse::Binary,
            Ratio::new(900_000),
        )),
    );
    assert_eq!(network.connect_no_resistance(generator, bus), Ok(()));
    assert_eq!(network.connect_no_resistance(bus, breaker), Ok(()));
    assert_eq!(
        network.connect_with_wire(breaker, load, ElectricalResistance::new(10_000)),
        Ok(())
    );
    assert_eq!(network.command(load, Command::SetPowerState(true)), Ok(()));
    Feeder { network, generator, bus, breaker, load }
}

fn breaker_current(feeder: &Feeder) -> i64 {
    match feeder.network.component(feeder.breaker) {
        Some(component) => component.get_output_current().micro,
        None => panic!("no breaker"),
    }
}

fn breaker_voltage(feeder: &Feeder) -> i64 {
    match feeder.network.component(feeder.breaker) {
        Some(component) => component.get_output_voltage().micro,
        None => panic!("no breaker"),
    }
}

fn breaker_is_tripped(feeder: &Feeder) -> bool {
    match feeder.network.component(feeder.breaker).and_then(|component| component.as_circuit_breaker())
    {
        Some(device) => device.is_tripped(),
        None => panic!("no breaker"),
    }
}

fn load_power(feeder: &Feeder) -> i64 {
    match feeder.network.component(feeder.load).and_then(|component| component.as_load()) {
        Some(load) => load.get_actual_power().micro,
        None => panic!("no load"),
    }
}

fn load_current(feeder: &Feeder) -> i64 {
    match feeder.network.component(feeder.load) {
        Some(component) => component.get_input_current().micro,
        None => panic!("no load"),
    }
}

fn start_generator(feeder: &mut Feeder) {
    assert_eq!(feeder.network.command(feeder.generator, Command::TurnOn), Ok(()));
    assert_eq!(
        feeder.network.command(
            feeder.generator,
            Command::SetMechanicalInput(
                Power::new(80_000 * UNIT),
                AngularVelocity::new(6_000 * UNIT)
            )
        ),
        Ok(())
    );
}

#[test]
fn breaker_carries_nothing_while_the_generator_is_off() {
    let mut line = feeder(0);
    for _ in 0..200 {
        line.network.update_system(Time::new(100_000));
        assert_eq!(breaker_current(&line), 0);
        assert_eq!(breaker_voltage(&line), 0);
        assert!(!breaker_is_tripped(&line));
        assert_eq!(load_power(&line), 0);
    }
}

#[test]
fn charged_bus_discharges_in_one_tick_while_the_generator_is_off() {
    let mut line = feeder(28);
    line.network.update_system(Time::new(100_000));
    // The bus still stood at 28 V when the currents were taken: 28 V across
    // a thousandth of an ohm. The generator's zero volts reach it in the same
    // tick.
    assert_eq!(breaker_current(&line), 28_000 * UNIT);
    assert_eq!(breaker_voltage(&line), 0);
    for _ in 0..200 {
        line.network.update_system(Time::new(100_000));
        assert_eq!(breaker_current(&line), 0);
        assert_eq!(breaker_voltage(&line), 0);
        assert!(!breaker_is_tripped(&line));
    }
}

#[test]
fn running_generator_feeds_the_load_through_the_breaker() {
    let mut line = feeder(28);
    for _ in 0..3 {
        line.network.update_system(Time::new(100_000));
    }
    start_generator(&mut line);
    line.network.update_system(Time::new(100_000));
    assert_eq!(breaker_voltage(&line), 65_434_783);
    assert_eq!(
        line.network.get_current(line.generator, line.bus).map(|amps| amps.micro),
        Some(65_434_783_000)
    );
    assert_eq!(load_power(&line), 180 * UNIT);
    // The load draws its power at the voltage that reaches it.
    assert_eq!(load_current(&line), 2_750_830);
    for _ in 0..50 {
        line.network.update_system(Time::new(100_000));
        assert!(!breaker_is_tripped(&line));
        assert_eq!(breaker_voltage(&line), 65_434_783);
        assert_eq!(breaker_current(&line), 0);
        assert_eq!(load_power(&line), 180 * UNIT);
        assert_eq!(
            line.network.get_current(line.breaker, line.load).map(|amps| amps.micro),
            Some(6_543_478_300)
        );
    }
}

#[test]
fn overcurrent_that_lasts_as_long_as_the_delay_opens_the_breaker_until_reset() {
    let mut line = feeder(28);
    // The first tick leaves 28 000 A latched in the breaker; the second tick
    // lasts longer than the breaker's delay.
    line.network.update_system(Time::new(250_000));
    assert!(!breaker_is_tripped(&line));
    line.network.update_system(Time::new(250_000));
    assert!(breaker_is_tripped(&line));
    assert_eq!(breaker_current(&line), 0);
    start_generator(&mut line);
    for _ in 0..100 {
        line.network.update_system(Time::new(250_000));
        assert!(breaker_is_tripped(&line));
        assert_eq!(breaker_current(&line), 0);
        assert_eq!(breaker_voltage(&line), 0);
        assert_eq!(load_power(&line), 0);
    }
    assert_eq!(line.network.command(line.breaker, Command::ResetBreaker), Ok(()));
    assert!(!breaker_is_tripped(&line));
    line.network.update_system(Time::new(100_000));
    assert!(!breaker_is_tripped(&line));
    assert_eq!(breaker_voltage(&line), 65_434_783);
    assert_eq!(load_power(&line), 180 * UNIT);
}

#[test]
fn overcurrent_shorter_than_the_delay_leaves_the_breaker_closed() {
    let mut line = feeder(28);
    line.network.update_system(Time::new(100_000));
    for _ in 0..10 {
        line.network.update_system(Time::new(100_000));
        assert!(!breaker_is_tripped(&line));
    }
}
