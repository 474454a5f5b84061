use e170_systems::quantity::{
    AngularVelocity, ElectricCurrent, ElectricPotential, ElectricalResistance, Frequency, Power,
    Ratio, Time,
};
use e170_systems::systems::electrical::components::ac::generator::Generator;
use e170_systems::systems::electrical::{current_from_power, ElectricalComponent};

const UNIT: i64 = 1_000_000;

fn main_generator(spin_up_seconds: i64) -> Generator {
    Generator::new(
        Ratio::new(2 * UNIT),
        Power::new(90_000 * UNIT),
        ElectricPotential::new(115 * UNIT),
        Frequency::new(400 * UNIT),
        Ratio::new(950_000),
        ElectricalResistance::new(50_000),
        Time::new(spin_up_seconds * UNIT),
        3,
    )
}

#[test]
fn new_generator_is_off_and_delivers_nothing() {
    let generator = main_generator(0);
    assert!(!generator.is_on());
    assert_eq!(generator.get_output_power().micro, 0);
    assert_eq!(generator.get_output_voltage().micro, 0);
    assert_eq!(generator.get_output_current().micro, 0);
    assert_eq!(generator.get_input_current().micro, 0);
    assert_eq!(generator.speed().micro, 0);
}

#[test]
fn generator_that_is_off_stays_at_zero_whatever_is_fed_to_it() {
    let mut generator = main_generator(0);
    generator.set_mechanical_input(Power::new(80_000 * UNIT), AngularVelocity::new(6_000 * UNIT));
    for _ in 0..10 {
        generator.update(Time::new(16_000));
        assert_eq!(generator.get_output_power().micro, 0);
        assert_eq!(generator.get_output_voltage().micro, 0);
        assert_eq!(generator.get_output_current().micro, 0);
        assert_eq!(generator.speed().micro, 0);
    }
}

#[test]
fn mechanical_input_given_while_off_is_ignored() {
    let mut generator = main_generator(0);
    generator.set_mechanical_input(Power::new(80_000 * UNIT), AngularVelocity::new(6_000 * UNIT));
    generator.turn_on();
    generator.update(Time::new(16_000));
    // With no mechanical input the generator turns at its synchronous speed and delivers nothing.
    assert_eq!(generator.speed().micro, 12_000 * UNIT);
    assert_eq!(generator.get_output_power().micro, 0);
    assert_eq!(generator.get_output_voltage().micro, 115 * UNIT);
}

#[test]
fn running_generator_droops_under_load() {
    let mut generator = main_generator(0);
    generator.turn_on();
    generator.set_mechanical_input(Power::new(80_000 * UNIT), AngularVelocity::new(6_000 * UNIT));
    generator.update(Time::new(16_000));
    assert!(generator.is_on());
    assert_eq!(generator.speed().micro, 6_000 * UNIT);
    // 80 kW at 0.95 efficiency, derated by 6000 / 12000.
    assert_eq!(generator.get_output_power().micro, 38_000 * UNIT);
    // 115 V less (38000 / 115 * 3) A across 0.05 ohm.
    assert_eq!(generator.get_output_voltage().micro, 65_434_783);
    assert_eq!(generator.get_output_current().micro, 580_730_893);
    assert_eq!(generator.get_input_current().micro, 580_730_893);
}

#[test]
fn output_power_is_capped_at_the_rating_and_voltage_is_floored_at_zero() {
    let mut generator = main_generator(0);
    generator.turn_on();
    generator.set_mechanical_input(Power::new(100_000 * UNIT), AngularVelocity::new(12_000 * UNIT));
    generator.update(Time::new(16_000));
    assert_eq!(generator.get_output_power().micro, 90_000 * UNIT);
    assert_eq!(generator.get_output_voltage().micro, 0);
    assert_eq!(generator.get_output_current().micro, 0);
}

#[test]
fn speed_rises_with_time_on_and_is_full_only_after_spin_up() {
    let mut generator = main_generator(2);
    generator.turn_on();
    let mut speeds = Vec::new();
    for _ in 0..5 {
        generator.update(Time::new(500_000));
        speeds.push(generator.speed().micro);
    }
    assert_eq!(
        speeds,
        vec![3_000 * UNIT, 6_000 * UNIT, 9_000 * UNIT, 12_000 * UNIT, 12_000 * UNIT]
    );
}

#[test]
fn turning_on_again_restarts_the_spin_up() {
    let mut generator = main_generator(2);
    generator.turn_on();
    generator.update(Time::new(2 * UNIT));
    assert_eq!(generator.speed().micro, 12_000 * UNIT);
    generator.turn_on();
    generator.update(Time::new(UNIT));
    assert_eq!(generator.speed().micro, 6_000 * UNIT);
}

#[test]
fn turning_off_zeroes_the_outputs_at_once() {
    let mut generator = main_generator(0);
    generator.turn_on();
    generator.set_mechanical_input(Power::new(80_000 * UNIT), AngularVelocity::new(6_000 * UNIT));
    generator.update(Time::new(16_000));
    generator.turn_off();
    assert!(!generator.is_on());
    assert_eq!(generator.get_output_power().micro, 0);
    assert_eq!(generator.get_output_voltage().micro, 0);
    assert_eq!(generator.speed().micro, 0);
    generator.update(Time::new(16_000));
    assert_eq!(generator.get_output_power().micro, 0);
    assert_eq!(generator.get_output_voltage().micro, 0);
}

#[test]
fn zero_tick_leaves_a_running_generator_as_it_is() {
    let mut generator = main_generator(0);
    generator.turn_on();
    generator.set_mechanical_input(Power::new(80_000 * UNIT), AngularVelocity::new(6_000 * UNIT));
    generator.update(Time::new(16_000));
    let power = generator.get_output_power().micro;
    let voltage = generator.get_output_voltage().micro;
    let speed = generator.speed().micro;
    generator.update(Time::new(0));
    assert_eq!(generator.get_output_power().micro, power);
    assert_eq!(generator.get_output_voltage().micro, voltage);
    assert_eq!(generator.speed().micro, speed);
}

#[test]
fn efficiency_is_held_within_zero_and_one() {
    let mut generator = Generator::new(
        Ratio::new(2 * UNIT),
        Power::new(90_000 * UNIT),
        ElectricPotential::new(115 * UNIT),
        Frequency::new(400 * UNIT),
        Ratio::new(5 * UNIT),
        ElectricalResistance::new(0),
        Time::new(0),
        3,
    );
    generator.turn_on();
    generator.set_mechanical_input(Power::new(1_000 * UNIT), AngularVelocity::new(12_000 * UNIT));
    generator.update(Time::new(16_000));
    assert_eq!(generator.get_output_power().micro, 1_000 * UNIT);
}

#[test]
fn generator_ignores_what_the_network_offers_it() {
    let mut generator = main_generator(0);
    generator.set_input_voltage(ElectricPotential::new(28 * UNIT));
    generator.set_input_power(Power::new(100 * UNIT));
    generator.set_input_current(ElectricCurrent::new(5 * UNIT));
    assert_eq!(generator.get_output_voltage().micro, 0);
    assert_eq!(generator.get_output_power().micro, 0);
    assert_eq!(generator.get_output_current().micro, 0);
}

#[test]
fn current_is_power_over_voltage_and_zero_without_voltage() {
    assert_eq!(
        current_from_power(Power::new(56 * UNIT), ElectricPotential::new(28 * UNIT)).micro,
        2 * UNIT
    );
    assert_eq!(current_from_power(Power::new(56 * UNIT), ElectricPotential::new(0)).micro, 0);
    assert_eq!(
        current_from_power(Power::new(56 * UNIT), ElectricPotential::new(-28 * UNIT)).micro,
        0
    );
}
