use e170_systems::quantity::{ElectricCurrent, ElectricPotential, Power, Ratio, Time};
use e170_systems::systems::electrical::components::dc::generic_dc_component::{
    GenericDcComponent, VoltageFault, VoltageResponse,
};
use e170_systems::systems::electrical::ElectricalComponent;

const UNIT: i64 = 1_000_000;

fn load(response: VoltageResponse) -> GenericDcComponent {
    let mut made = GenericDcComponent::new(
        "Test Light",
        ElectricPotential::new(28 * UNIT),
        Power::new(200 * UNIT),
        ElectricPotential::new(20 * UNIT),
        ElectricPotential::new(32 * UNIT),
        response,
        Ratio::new(900_000),
    );
    made.set_power_state(true);
    made
}

fn power_at(component: &mut GenericDcComponent, volts_micro: i64) -> i64 {
    component.set_input_voltage(ElectricPotential::new(volts_micro));
    component.get_actual_power().micro
}

#[test]
fn new_load_is_off_and_consumes_nothing() {
    let mut made = GenericDcComponent::new(
        "Test Light",
        ElectricPotential::new(28 * UNIT),
        Power::new(200 * UNIT),
        ElectricPotential::new(20 * UNIT),
        ElectricPotential::new(32 * UNIT),
        VoltageResponse::Binary,
        Ratio::new(900_000),
    );
    assert!(!made.is_on());
    assert_eq!(made.name().as_str(), "Test Light");
    assert_eq!(power_at(&mut made, 28 * UNIT), 0);
    assert_eq!(made.get_input_current().micro, 0);
}

#[test]
fn binary_load_is_a_step_at_the_minimum_voltage() {
    let mut light = load(VoltageResponse::Binary);
    assert_eq!(power_at(&mut light, 0), 0);
    assert_eq!(power_at(&mut light, 20 * UNIT - 1), 0);
    assert_eq!(power_at(&mut light, 20 * UNIT), 180 * UNIT);
    assert_eq!(power_at(&mut light, 24 * UNIT), 180 * UNIT);
    assert_eq!(power_at(&mut light, 28 * UNIT), 180 * UNIT);
    assert_eq!(power_at(&mut light, 40 * UNIT), 180 * UNIT);
    light.set_power_state(false);
    assert_eq!(power_at(&mut light, 28 * UNIT), 0);
}

#[test]
fn binary_load_scales_with_load_factor() {
    let mut light = load(VoltageResponse::Binary);
    light.set_load_factor(Ratio::new(500_000));
    assert_eq!(power_at(&mut light, 28 * UNIT), 90 * UNIT);
}

#[test]
fn load_factor_is_held_within_zero_and_one() {
    let mut light = load(VoltageResponse::Binary);
    light.set_load_factor(Ratio::new(3 * UNIT));
    assert_eq!(power_at(&mut light, 28 * UNIT), 180 * UNIT);
    light.set_load_factor(Ratio::new(-UNIT));
    assert_eq!(power_at(&mut light, 28 * UNIT), 0);
}

#[test]
fn power_factor_is_held_within_zero_and_one() {
    let mut made = GenericDcComponent::new(
        "Heater",
        ElectricPotential::new(28 * UNIT),
        Power::new(200 * UNIT),
        ElectricPotential::new(20 * UNIT),
        ElectricPotential::new(32 * UNIT),
        VoltageResponse::Binary,
        Ratio::new(2 * UNIT),
    );
    made.set_power_state(true);
    assert_eq!(power_at(&mut made, 28 * UNIT), 200 * UNIT);
}

#[test]
fn linear_load_follows_the_voltage_ratio() {
    let mut heater = load(VoltageResponse::Linear);
    assert_eq!(power_at(&mut heater, 19 * UNIT), 0);
    assert_eq!(power_at(&mut heater, 28 * UNIT), 180 * UNIT);
    assert_eq!(power_at(&mut heater, 21 * UNIT), 135 * UNIT);
    assert_eq!(power_at(&mut heater, 14 * UNIT), 0);
    heater.set_power_state(false);
    assert_eq!(power_at(&mut heater, 28 * UNIT), 0);
}

#[test]
fn regulated_load_draws_full_power_above_the_minimum() {
    let mut display = load(VoltageResponse::Regulated);
    assert_eq!(power_at(&mut display, 19 * UNIT), 0);
    assert_eq!(power_at(&mut display, 20 * UNIT), 180 * UNIT);
    assert_eq!(power_at(&mut display, 31 * UNIT), 180 * UNIT);
    display.set_power_state(false);
    assert_eq!(power_at(&mut display, 31 * UNIT), 0);
}

#[test]
fn proportional_load_rises_from_minimum_to_nominal_and_stays_full() {
    let mut dimmer = load(VoltageResponse::Proportional);
    assert_eq!(power_at(&mut dimmer, 19 * UNIT), 0);
    assert_eq!(power_at(&mut dimmer, 20 * UNIT), 0);
    assert_eq!(power_at(&mut dimmer, 24 * UNIT), 90 * UNIT);
    assert_eq!(power_at(&mut dimmer, 26 * UNIT), 135 * UNIT);
    assert_eq!(power_at(&mut dimmer, 28 * UNIT), 180 * UNIT);
    assert_eq!(power_at(&mut dimmer, 32 * UNIT), 180 * UNIT);
    dimmer.set_power_state(false);
    assert_eq!(power_at(&mut dimmer, 28 * UNIT), 0);
}

#[test]
fn input_current_is_consumed_power_over_input_voltage() {
    let mut light = load(VoltageResponse::Binary);
    light.set_input_voltage(ElectricPotential::new(24 * UNIT));
    assert_eq!(light.get_input_current().micro, 7_500_000);
    light.set_input_voltage(ElectricPotential::new(0));
    assert_eq!(light.get_input_current().micro, 0);
}

#[test]
fn load_passes_nothing_on() {
    let mut light = load(VoltageResponse::Binary);
    light.set_input_voltage(ElectricPotential::new(28 * UNIT));
    light.set_input_power(Power::new(500 * UNIT));
    light.set_input_current(ElectricCurrent::new(9 * UNIT));
    assert_eq!(light.get_output_voltage().micro, 0);
    assert_eq!(light.get_output_power().micro, 0);
    assert_eq!(light.get_output_current().micro, 0);
}

#[test]
fn update_leaves_the_load_as_it_is() {
    let mut light = load(VoltageResponse::Binary);
    light.set_input_voltage(ElectricPotential::new(28 * UNIT));
    light.update(Time::new(16_000));
    assert!(light.is_on());
    assert_eq!(light.get_actual_power().micro, 180 * UNIT);
    assert_eq!(light.get_input_current().micro, 6_428_571);
}

#[test]
fn supply_outside_the_band_is_a_fault_only_while_on() {
    let mut light = load(VoltageResponse::Binary);
    light.set_input_voltage(ElectricPotential::new(33 * UNIT));
    assert_eq!(light.voltage_fault(), Some(VoltageFault::Overvoltage));
    light.set_input_voltage(ElectricPotential::new(19 * UNIT));
    assert_eq!(light.voltage_fault(), Some(VoltageFault::Undervoltage));
    light.set_input_voltage(ElectricPotential::new(32 * UNIT));
    assert_eq!(light.voltage_fault(), None);
    light.set_input_voltage(ElectricPotential::new(20 * UNIT));
    assert_eq!(light.voltage_fault(), None);
    light.set_power_state(false);
    light.set_input_voltage(ElectricPotential::new(50 * UNIT));
    assert_eq!(light.voltage_fault(), None);
}
