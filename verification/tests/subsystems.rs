use e170_systems::quantity::{
    AngularVelocity, ElectricPotential, Length, Power, Pressure, Time, Volume,
};
use e170_systems::systems::common::state::{
    ElectricalSystem, FlightDeckState, HydraulicSystem1, SystemState,
};
use e170_systems::systems::hydraulic::HydraulicSystem;
use e170_systems::traits::{System, SystemContainer};

#[test]
fn container_advances_the_subsystem_it_holds() {
    let mut container = SystemContainer::new(HydraulicSystem::new());
    container.update(Time::new(16_000));
    container.update(Time::new(0));
    let mut bare = HydraulicSystem::new();
    bare.update(Time::new(16_000));
}

#[test]
fn quantities_hold_millionths_of_their_unit() {
    assert_eq!(ElectricPotential::new(28_000_000).micro, 28_000_000);
    assert_eq!(Power::new(-5).micro, -5);
    assert_eq!(Length::new(0).micro, 0);
    assert_eq!(Time::new(16_000), Time { micro: 16_000 });
}

#[test]
fn state_snapshots_can_be_shown() {
    let snapshot = HydraulicSystem1 {
        reservoir_volume: Volume::new(12_000_000),
        engine_driven_pump_rpm: AngularVelocity::new(3_000_000_000),
        pre_manifold_pressure: Pressure::new(20_700_000),
        post_manifold_pressure: Pressure::new(20_600_000),
    };
    assert!(format!("{:?}", snapshot).contains("20700000"));
    assert_eq!(format!("{:?}", SystemState {}), "SystemState");
    assert_eq!(format!("{:?}", FlightDeckState {}), "FlightDeckState");
    assert_eq!(format!("{:?}", ElectricalSystem {}), "ElectricalSystem");
    assert_eq!(
        format!("{:?}", e170_systems::systems::common::state::HydraulicSystem {}),
        "HydraulicSystem"
    );
}

#[test]
fn delta_time_is_the_difference_of_two_readings() {
    let mut clock = e170_systems::utils::delta_time::DeltaTime::new(1_000);
    assert_eq!(clock.update_time(17_000).micro, 16_000);
    assert_eq!(clock.update_time(17_000).micro, 0);
    assert_eq!(clock.update_time(33_500).micro, 16_500);
}

#[test]
fn delta_time_is_never_negative_and_never_overflows() {
    let mut clock = e170_systems::utils::delta_time::DeltaTime::new(5_000);
    assert_eq!(clock.update_time(4_000).micro, 0);
    assert_eq!(clock.update_time(4_001).micro, 1);
    let mut far = e170_systems::utils::delta_time::DeltaTime::new(0);
    assert_eq!(far.update_time(u64::MAX).micro, i64::MAX);
}
