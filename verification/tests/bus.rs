use e170_systems::quantity::{ElectricCurrent, ElectricPotential, Power, Time};
use e170_systems::systems::electrical::components::shared::bus::Bus;
use e170_systems::systems::electrical::ElectricalComponent;

const UNIT: i64 = 1_000_000;

#[test]
fn bus_hands_on_what_was_last_applied() {
    let mut bus = Bus::new(ElectricPotential::new(28 * UNIT), Power::new(0));
    assert_eq!(bus.get_output_voltage().micro, 28 * UNIT);
    assert_eq!(bus.get_output_power().micro, 0);
    bus.set_input_voltage(ElectricPotential::new(27 * UNIT));
    bus.set_input_power(Power::new(540 * UNIT));
    bus.update(Time::new(16_000));
    assert_eq!(bus.get_output_voltage().micro, 27 * UNIT);
    assert_eq!(bus.get_output_power().micro, 540 * UNIT);
}

#[test]
fn bus_current_is_derived_from_power_and_voltage() {
    let mut bus = Bus::new(ElectricPotential::new(27 * UNIT), Power::new(540 * UNIT));
    assert_eq!(bus.get_output_current().micro, 20 * UNIT);
    assert_eq!(bus.get_input_current().micro, 20 * UNIT);
    bus.set_input_current(ElectricCurrent::new(3 * UNIT));
    assert_eq!(bus.get_output_current().micro, 20 * UNIT);
    bus.set_input_voltage(ElectricPotential::new(0));
    assert_eq!(bus.get_output_current().micro, 0);
}
