use e170_systems::quantity::{ElectricCurrent, ElectricPotential, Power, Time};
use e170_systems::systems::electrical::components::shared::circuit_breaker::{
    CircuitBreaker, TripCurve,
};
use e170_systems::systems::electrical::ElectricalComponent;

const UNIT: i64 = 1_000_000;

fn breaker(curve: TripCurve, auto_reset: bool, reset_delay: i64) -> CircuitBreaker {
    CircuitBreaker::new(
        "Avionics CB",
        ElectricCurrent::new(15 * UNIT),
        curve,
        auto_reset,
        Time::new(reset_delay),
    )
}

fn apply(device: &mut CircuitBreaker, amps_micro: i64) {
    device.set_input_voltage(ElectricPotential::new(28 * UNIT));
    device.set_input_power(Power::new(420 * UNIT));
    device.set_input_current(ElectricCurrent::new(amps_micro));
}

#[test]
fn new_breaker_is_closed_and_passes_what_is_applied() {
    let mut device = breaker(TripCurve::Instantaneous, false, 0);
    assert!(!device.is_tripped());
    assert_eq!(device.name().as_str(), "Avionics CB");
    assert_eq!(device.get_output_current().micro, 0);
    apply(&mut device, 10 * UNIT);
    assert_eq!(device.get_output_voltage().micro, 28 * UNIT);
    assert_eq!(device.get_output_power().micro, 420 * UNIT);
    assert_eq!(device.get_output_current().micro, 10 * UNIT);
    assert_eq!(device.get_input_current().micro, 10 * UNIT);
}

#[test]
fn instantaneous_breaker_trips_on_the_first_tick_over_its_rating() {
    let mut device = breaker(TripCurve::Instantaneous, false, 0);
    apply(&mut device, 15 * UNIT);
    device.update(Time::new(16_000));
    assert!(!device.is_tripped());
    apply(&mut device, 15 * UNIT + 1);
    device.update(Time::new(16_000));
    assert!(device.is_tripped());
    assert_eq!(device.get_output_voltage().micro, 0);
    assert_eq!(device.get_output_power().micro, 0);
    assert_eq!(device.get_output_current().micro, 0);
    assert_eq!(device.get_input_current().micro, 0);
}

#[test]
fn instantaneous_breaker_trips_even_on_a_tick_of_no_length() {
    let mut device = breaker(TripCurve::Instantaneous, false, 0);
    apply(&mut device, 16 * UNIT);
    device.update(Time::new(0));
    assert!(device.is_tripped());
}

#[test]
fn short_delay_breaker_trips_once_the_dwell_reaches_the_delay() {
    let mut device = breaker(TripCurve::ShortDelay(Time::new(200_000)), false, 0);
    apply(&mut device, 20 * UNIT);
    device.update(Time::new(90_000));
    assert!(!device.is_tripped());
    device.update(Time::new(90_000));
    assert!(!device.is_tripped());
    assert_eq!(device.get_output_current().micro, 20 * UNIT);
    device.update(Time::new(20_000));
    assert!(device.is_tripped());
    assert_eq!(device.get_output_current().micro, 0);
}

#[test]
fn dwell_starts_over_when_the_overload_ends() {
    let mut device = breaker(TripCurve::ShortDelay(Time::new(200_000)), false, 0);
    apply(&mut device, 20 * UNIT);
    device.update(Time::new(150_000));
    apply(&mut device, 10 * UNIT);
    device.update(Time::new(150_000));
    apply(&mut device, 20 * UNIT);
    device.update(Time::new(150_000));
    assert!(!device.is_tripped());
    device.update(Time::new(50_000));
    assert!(device.is_tripped());
}

#[test]
fn long_delay_breaker_trips_once_the_dwell_reaches_the_delay() {
    let mut device = breaker(TripCurve::LongDelay(Time::new(2 * UNIT)), false, 0);
    apply(&mut device, 20 * UNIT);
    device.update(Time::new(UNIT));
    assert!(!device.is_tripped());
    device.update(Time::new(UNIT));
    assert!(device.is_tripped());
}

#[test]
fn inverse_time_breaker_trips_sooner_the_larger_the_overload() {
    // At twice the rating the breaker bears the overload for 0.1 / 4 seconds.
    let mut device = breaker(TripCurve::InverseTime, false, 0);
    apply(&mut device, 30 * UNIT);
    device.update(Time::new(24_999));
    assert!(!device.is_tripped());
    device.update(Time::new(1));
    assert!(device.is_tripped());

    // At four times the rating it bears it for 0.1 / 16 seconds.
    let mut harder = breaker(TripCurve::InverseTime, false, 0);
    apply(&mut harder, 60 * UNIT);
    harder.update(Time::new(6_249));
    assert!(!harder.is_tripped());
    harder.update(Time::new(1));
    assert!(harder.is_tripped());
}

#[test]
fn should_trip_needs_an_overload() {
    let mut device = breaker(TripCurve::Instantaneous, false, 0);
    apply(&mut device, 15 * UNIT);
    assert!(!device.should_trip(Time::new(16_000)));
    apply(&mut device, 16 * UNIT);
    assert!(device.should_trip(Time::new(16_000)));
    let mut delayed = breaker(TripCurve::ShortDelay(Time::new(200_000)), false, 0);
    apply(&mut delayed, 16 * UNIT);
    assert!(!delayed.should_trip(Time::new(16_000)));
}

#[test]
fn tripped_breaker_without_auto_reset_stays_tripped_until_reset_by_hand() {
    let mut device = breaker(TripCurve::Instantaneous, false, 0);
    apply(&mut device, 20 * UNIT);
    device.update(Time::new(16_000));
    assert!(device.is_tripped());
    apply(&mut device, 0);
    for _ in 0..1000 {
        device.update(Time::new(UNIT));
        assert!(device.is_tripped());
        assert_eq!(device.get_output_voltage().micro, 0);
    }
    device.reset();
    assert!(!device.is_tripped());
    assert_eq!(device.get_output_voltage().micro, 28 * UNIT);
}

#[test]
fn tripped_breaker_latches_its_inputs_for_the_time_after_reset() {
    let mut device = breaker(TripCurve::Instantaneous, false, 0);
    apply(&mut device, 20 * UNIT);
    device.update(Time::new(16_000));
    assert!(device.is_tripped());
    device.set_input_voltage(ElectricPotential::new(27 * UNIT));
    device.set_input_power(Power::new(270 * UNIT));
    device.set_input_current(ElectricCurrent::new(10 * UNIT));
    assert_eq!(device.get_output_voltage().micro, 0);
    device.reset();
    assert_eq!(device.get_output_voltage().micro, 27 * UNIT);
    assert_eq!(device.get_output_power().micro, 270 * UNIT);
    assert_eq!(device.get_output_current().micro, 10 * UNIT);
}

#[test]
fn auto_reset_closes_the_breaker_after_the_reset_delay() {
    let mut device = breaker(TripCurve::Instantaneous, true, 5 * UNIT);
    apply(&mut device, 20 * UNIT);
    device.update(Time::new(16_000));
    assert!(device.is_tripped());
    apply(&mut device, 10 * UNIT);
    device.update(Time::new(4 * UNIT));
    assert!(device.is_tripped());
    device.update(Time::new(999_999));
    assert!(device.is_tripped());
    device.update(Time::new(1));
    assert!(!device.is_tripped());
    assert_eq!(device.get_output_current().micro, 10 * UNIT);
}

#[test]
fn reset_clears_the_dwell() {
    let mut device = breaker(TripCurve::ShortDelay(Time::new(200_000)), false, 0);
    apply(&mut device, 20 * UNIT);
    device.update(Time::new(150_000));
    device.reset();
    device.update(Time::new(150_000));
    assert!(!device.is_tripped());
    device.update(Time::new(50_000));
    assert!(device.is_tripped());
}
