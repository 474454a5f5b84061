use e170_systems::quantity::Time;
use e170_systems::systems::indicating_recording_systems::independent_instruments::chronometer::Chronometer;
use e170_systems::systems::indicating_recording_systems::independent_instruments::clock::{
    Clock, ClockMode,
};

const UNIT: i64 = 1_000_000;

#[test]
fn chronometer_shows_what_it_is_set_to() {
    let mut chronometer = Chronometer::new();
    assert_eq!(chronometer.get_hours(), 0);
    assert_eq!(chronometer.get_minutes(), 0);
    chronometer.set_hours(13);
    chronometer.set_minutes(37);
    assert_eq!(chronometer.get_hours(), 13);
    assert_eq!(chronometer.get_minutes(), 37);
    chronometer.update(Time::new(90 * UNIT));
    assert_eq!(chronometer.get_hours(), 13);
    assert_eq!(chronometer.get_minutes(), 37);
}

#[test]
fn clock_starts_at_zero() {
    let clock = Clock::new();
    assert_eq!(clock.get_time(), 0);
    assert_eq!(clock.get_utc(), 0);
    assert_eq!(clock.get_et(), 0);
}

#[test]
fn clock_keeps_what_it_is_set_to() {
    let mut clock = Clock::new();
    clock.set_time(100);
    clock.set_utc(200);
    clock.set_et(300);
    assert_eq!(clock.get_time(), 100);
    assert_eq!(clock.get_utc(), 200);
    assert_eq!(clock.get_et(), 300);
}

#[test]
fn clock_in_universal_mode_carries_the_running_time_into_universal_time() {
    let mut clock = Clock::new();
    clock.set_time(100);
    clock.set_et(7);
    clock.update(Time::new(5 * UNIT));
    assert_eq!(clock.get_time(), 105);
    assert_eq!(clock.get_utc(), 105);
    assert_eq!(clock.get_et(), 7);
}

#[test]
fn clock_in_elapsed_mode_carries_the_running_time_into_elapsed_time() {
    let mut clock = Clock::new();
    clock.set_mode(ClockMode::ET);
    clock.set_utc(9);
    clock.update(Time::new(5 * UNIT));
    assert_eq!(clock.get_time(), 5);
    assert_eq!(clock.get_et(), 5);
    assert_eq!(clock.get_utc(), 9);
}

#[test]
fn clock_in_chrono_mode_moves_the_running_time_only() {
    let mut clock = Clock::new();
    clock.set_mode(ClockMode::CHR);
    clock.set_utc(9);
    clock.set_et(7);
    clock.update(Time::new(5 * UNIT));
    assert_eq!(clock.get_time(), 5);
    assert_eq!(clock.get_utc(), 9);
    assert_eq!(clock.get_et(), 7);
}

#[test]
fn clock_counts_whole_seconds_only() {
    let mut clock = Clock::new();
    clock.update(Time::new(UNIT - 1));
    assert_eq!(clock.get_time(), 0);
    clock.update(Time::new(2 * UNIT + 999_999));
    assert_eq!(clock.get_time(), 2);
    clock.update(Time::new(-5 * UNIT));
    assert_eq!(clock.get_time(), 2);
    clock.update(Time::new(0));
    assert_eq!(clock.get_time(), 2);
}

#[test]
fn clock_stops_at_the_most_it_can_show() {
    let mut clock = Clock::new();
    clock.set_time(u32::MAX - 1);
    clock.update(Time::new(5 * UNIT));
    assert_eq!(clock.get_time(), u32::MAX);
    assert_eq!(clock.get_utc(), u32::MAX);
    let mut far = Clock::new();
    far.update(Time::new(i64::MAX));
    assert_eq!(far.get_time(), u32::MAX);
}
