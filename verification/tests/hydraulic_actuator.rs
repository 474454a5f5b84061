use e170_systems::quantity::{
    Coefficient, DynamicViscosity, Force, Length, MassDensity, Pressure, Ratio, Time, VolumeRate,
};
use e170_systems::systems::hydraulic::components::hydraulic_actuator::{
    ActuatorError, HydraulicActuator,
};

const UNIT: i64 = 1_000_000;

fn build(
    bore: i64,
    rod: i64,
    stroke: i64,
    static_friction: i64,
) -> Result<HydraulicActuator, ActuatorError> {
    HydraulicActuator::new(
        Length::new(bore),
        Length::new(rod),
        Length::new(stroke),
        Pressure::new(1_500 * UNIT),
        MassDensity::new(850),
        DynamicViscosity::new(30),
        VolumeRate::new(100_000 * UNIT),
        Force::new(static_friction),
        Coefficient::new(2 * UNIT),
        Coefficient::new(1_000),
        Coefficient::new(100),
    )
}

fn actuator(stroke: i64) -> HydraulicActuator {
    match build(50 * UNIT, 20 * UNIT, stroke, 50 * UNIT) {
        Ok(made) => made,
        Err(error) => panic!("parameters refused: {:?}", error),
    }
}

fn refusal(bore: i64, rod: i64, stroke: i64, static_friction: i64) -> Option<ActuatorError> {
    match build(bore, rod, stroke, static_friction) {
        Ok(_) => None,
        Err(error) => Some(error),
    }
}

#[test]
fn bore_must_be_positive() {
    assert_eq!(refusal(0, 20 * UNIT, 300 * UNIT, 50 * UNIT), Some(ActuatorError::NonPositiveBore));
    assert_eq!(refusal(-UNIT, 0, 300 * UNIT, 50 * UNIT), Some(ActuatorError::NonPositiveBore));
}

#[test]
fn rod_must_be_thinner_than_the_bore_and_not_negative() {
    assert_eq!(refusal(50 * UNIT, 50 * UNIT, 300 * UNIT, 50 * UNIT), Some(ActuatorError::InvalidRod));
    assert_eq!(refusal(50 * UNIT, 60 * UNIT, 300 * UNIT, 50 * UNIT), Some(ActuatorError::InvalidRod));
    assert_eq!(refusal(50 * UNIT, -1, 300 * UNIT, 50 * UNIT), Some(ActuatorError::InvalidRod));
    assert_eq!(refusal(50 * UNIT, 0, 300 * UNIT, 50 * UNIT), None);
}

#[test]
fn stroke_must_be_positive() {
    assert_eq!(refusal(50 * UNIT, 20 * UNIT, 0, 50 * UNIT), Some(ActuatorError::NonPositiveStroke));
    assert_eq!(refusal(50 * UNIT, 20 * UNIT, -5, 50 * UNIT), Some(ActuatorError::NonPositiveStroke));
}

#[test]
fn static_friction_must_not_be_negative() {
    assert_eq!(refusal(50 * UNIT, 20 * UNIT, 300 * UNIT, -1), Some(ActuatorError::NegativeFriction));
    assert_eq!(refusal(50 * UNIT, 20 * UNIT, 300 * UNIT, 0), None);
}

#[test]
fn the_first_fault_found_is_the_one_reported() {
    assert_eq!(refusal(0, -1, 0, -1), Some(ActuatorError::NonPositiveBore));
    assert_eq!(refusal(50 * UNIT, -1, 0, -1), Some(ActuatorError::InvalidRod));
    assert_eq!(refusal(50 * UNIT, 0, 0, -1), Some(ActuatorError::NonPositiveStroke));
}

#[test]
fn new_actuator_is_retracted_and_at_rest() {
    let made = actuator(300 * UNIT);
    assert_eq!(made.position().micro, 0);
    assert_eq!(made.velocity().micro, 0);
    assert_eq!(made.pressure().micro, 0);
    assert_eq!(made.extension_ratio().micro, 0);
}

#[test]
fn actuator_at_rest_stays_where_it_is() {
    let mut made = actuator(300 * UNIT);
    for tick in 0..500 {
        made.update(Time::new(1 + 1_000 * tick));
        assert_eq!(made.position().micro, 0);
        assert_eq!(made.velocity().micro, 0);
        assert_eq!(made.pressure().micro, 0);
    }
}

#[test]
fn piston_that_has_come_to_rest_stays_where_it_is() {
    let mut made = actuator(300 * UNIT);
    made.set_external_force(Force::new(60 * UNIT));
    made.update(Time::new(10_000));
    assert_eq!(made.position().micro, 1_500_000);
    // Let go and wait for the piston to stop.
    made.set_external_force(Force::new(0));
    let mut ticks = 0;
    while made.velocity().micro != 0 && ticks < 100 {
        made.update(Time::new(10_000));
        ticks += 1;
    }
    let resting = made.position().micro;
    for _ in 0..100 {
        made.update(Time::new(10_000));
        assert_eq!(made.position().micro, resting);
        assert_eq!(made.velocity().micro, 0);
    }
}

#[test]
fn force_within_static_friction_does_not_move_the_piston() {
    let mut made = actuator(300 * UNIT);
    made.set_external_force(Force::new(40 * UNIT));
    made.update(Time::new(10_000));
    assert_eq!(made.position().micro, 0);
    assert_eq!(made.velocity().micro, 0);
    made.set_external_force(Force::new(50 * UNIT));
    made.update(Time::new(10_000));
    assert_eq!(made.position().micro, 0);
    assert_eq!(made.velocity().micro, 0);
}

#[test]
fn force_beyond_static_friction_accelerates_the_piston() {
    // 60 N against 50 N of stiction leaves 10 N on one kilogram: 10 m/s^2.
    let mut made = actuator(300 * UNIT);
    made.set_external_force(Force::new(60 * UNIT));
    made.update(Time::new(10_000));
    assert_eq!(made.velocity().micro, 100 * UNIT);
    assert_eq!(made.position().micro, 1_500_000);
    assert_eq!(made.extension_ratio().micro, 5_000);
}

#[test]
fn piston_is_held_at_the_end_of_the_stroke_on_the_tick_that_reaches_it() {
    let mut made = actuator(2 * UNIT);
    made.set_external_force(Force::new(60 * UNIT));
    made.update(Time::new(10_000));
    // Short of the stop the piston keeps its speed.
    assert_eq!(made.position().micro, 1_500_000);
    assert_eq!(made.velocity().micro, 100 * UNIT);
    made.set_external_force(Force::new(1_000 * UNIT));
    made.update(Time::new(10_000));
    assert_eq!(made.position().micro, 2 * UNIT);
    assert_eq!(made.velocity().micro, 0);
    assert_eq!(made.extension_ratio().micro, UNIT);
    made.update(Time::new(10_000));
    assert_eq!(made.position().micro, 2 * UNIT);
    assert_eq!(made.velocity().micro, 0);
}

#[test]
fn piston_is_held_at_full_retraction() {
    let mut made = actuator(300 * UNIT);
    made.set_external_force(Force::new(-200 * UNIT));
    for _ in 0..6 {
        made.update(Time::new(10_000));
        assert_eq!(made.position().micro, 0);
        assert_eq!(made.velocity().micro, 0);
    }
}

#[test]
fn moving_piston_is_braked_in_proportion_to_its_speed() {
    let mut made = actuator(300 * UNIT);
    made.set_external_force(Force::new(60 * UNIT));
    made.update(Time::new(10_000));
    // At 100 mm/s the brake is 200 N against a drive of 60 N: the piston is
    // thrown back onto the retracted stop.
    made.update(Time::new(10_000));
    assert_eq!(made.position().micro, 0);
    assert_eq!(made.velocity().micro, 0);
}

#[test]
fn supply_pressure_reaches_the_cap_end_only_through_an_open_valve() {
    let mut made = actuator(300 * UNIT);
    made.set_supply_pressure(Pressure::new(10 * UNIT));
    assert_eq!(made.pressure().micro, 0);
    made.set_valve_opening(Ratio::new(-UNIT));
    made.set_supply_pressure(Pressure::new(10 * UNIT));
    assert_eq!(made.pressure().micro, 0);
    made.set_valve_opening(Ratio::new(UNIT / 2));
    made.set_supply_pressure(Pressure::new(10 * UNIT));
    assert_eq!(made.pressure().micro, 10 * UNIT);
}

#[test]
fn pressure_on_the_cap_end_extends_the_piston() {
    let mut made = actuator(300 * UNIT);
    made.set_valve_opening(Ratio::new(UNIT / 2));
    made.set_supply_pressure(Pressure::new(10 * UNIT));
    made.update(Time::new(1_000));
    // 10 MPa on 1963.495625 mm^2, less 50 N of stiction, on one kilogram.
    assert_eq!(made.velocity().micro, 19_584_956_250);
    assert_eq!(made.position().micro, 29_377_434);
    assert_eq!(made.pressure().micro, 10 * UNIT);
    assert_eq!(made.extension_ratio().micro, 97_924);
    made.update(Time::new(1_000));
    assert_eq!(made.position().micro, 15_834_086);
    assert_eq!(made.velocity().micro, -2_500_580_817);
    assert_eq!(made.pressure().micro, 8_701_000);
}

#[test]
fn valve_opening_is_held_within_zero_and_one() {
    let mut wide = actuator(300 * UNIT);
    wide.set_valve_opening(Ratio::new(7 * UNIT));
    wide.set_supply_pressure(Pressure::new(10 * UNIT));
    wide.update(Time::new(1_000));
    wide.update(Time::new(1_000));
    let mut full = actuator(300 * UNIT);
    full.set_valve_opening(Ratio::new(UNIT));
    full.set_supply_pressure(Pressure::new(10 * UNIT));
    full.update(Time::new(1_000));
    full.update(Time::new(1_000));
    assert_eq!(wide.position().micro, full.position().micro);
    assert_eq!(wide.velocity().micro, full.velocity().micro);
    assert_eq!(wide.pressure().micro, full.pressure().micro);
}

#[test]
fn position_never_leaves_the_cylinder() {
    let mut made = actuator(20 * UNIT);
    made.set_valve_opening(Ratio::new(UNIT));
    for tick in 0..200 {
        made.set_supply_pressure(Pressure::new(10 * UNIT));
        let force = if tick % 7 < 3 { 500 * UNIT } else { -700 * UNIT };
        made.set_external_force(Force::new(force));
        made.update(Time::new(1_000));
        assert!(made.position().micro >= 0);
        assert!(made.position().micro <= 20 * UNIT);
        if made.position().micro == 20 * UNIT {
            assert!(made.velocity().micro <= 0);
        }
        if made.position().micro == 0 {
            assert!(made.velocity().micro >= 0);
        }
    }
}
