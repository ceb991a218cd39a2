use mech_driver::actuator::{
    ServoUnit, UnitStatus, AMBIENT_TEMP_MILLI_C, JITTER_AMPLITUDE_NANO_RAD,
    VELOCITY_LIMIT_MICRO_RAD_S,
};
use mech_driver::KernelError;

#[test]
fn fresh_unit_is_calibrating_at_ambient() {
    let u = ServoUnit::new("L_ARM_01");
    assert_eq!(u.id, "L_ARM_01");
    assert_eq!(u.position, 0);
    assert_eq!(u.velocity, 0);
    assert_eq!(u.temperature, AMBIENT_TEMP_MILLI_C);
    assert!(matches!(u.status, UnitStatus::Calibrating));
}

#[test]
fn update_rejects_zero_and_negative_dt_without_mutation() {
    let mut u = ServoUnit::new("L_ARM_02");
    u.set_velocity(5_000).unwrap();
    u.position = 777;
    u.temperature = 40_000;

    for dt in [0i64, -1, -50_000] {
        let r = u.update(dt, 0);
        assert_eq!(r, Err(KernelError::InvalidInput));
        assert_eq!(u.position, 777);
        assert_eq!(u.velocity, 5_000);
        assert_eq!(u.temperature, 40_000);
        assert!(matches!(u.status, UnitStatus::Calibrating));
    }
}

#[test]
fn position_advances_by_velocity_times_dt_plus_jitter() {
    let mut u = ServoUnit::new("R_ARM_01");
    u.set_velocity(1_000).unwrap();
    // 1000 microrad/s over 50 ms is 50_000 nanorad; zero jitter keeps it exact.
    u.update(50, 0).unwrap();
    assert_eq!(u.position, 50_000);
    u.update(50, -123).unwrap();
    assert_eq!(u.position, 100_000 - 123);
}

#[test]
fn idle_unit_cools_exactly_to_ambient_and_never_overshoots() {
    let mut u = ServoUnit::new("TORSO_GYRO");
    u.temperature = 100_000; // 100 C, hot and idle
    let mut prev_gap = u.temperature - AMBIENT_TEMP_MILLI_C;
    for _ in 0..2_000 {
        u.update(50, 0).unwrap();
        let gap = u.temperature - AMBIENT_TEMP_MILLI_C;
        assert!(gap >= 0, "idle cooling overshot ambient");
        assert!(gap <= prev_gap, "gap to ambient widened");
        prev_gap = gap;
    }
    assert_eq!(u.temperature, AMBIENT_TEMP_MILLI_C);
}

#[test]
fn idle_unit_below_ambient_warms_back_to_ambient() {
    let mut u = ServoUnit::new("L_LEG_MAIN");
    u.temperature = 20_000; // 20 C
    for _ in 0..2_000 {
        u.update(50, 0).unwrap();
        assert!(u.temperature <= AMBIENT_TEMP_MILLI_C);
    }
    assert_eq!(u.temperature, AMBIENT_TEMP_MILLI_C);
}

#[test]
fn moving_unit_heats_in_proportion_to_speed() {
    let mut u = ServoUnit::new("R_LEG_MAIN");
    u.set_velocity(200_000).unwrap(); // 0.2 rad/s, above the idle threshold
    u.update(50, 0).unwrap();
    // 200_000 microrad/s divided by the heating divisor 20_000 is 10 mC.
    assert_eq!(u.temperature, AMBIENT_TEMP_MILLI_C + 10);
    assert!(matches!(u.status, UnitStatus::Nominal));
    let mut v = ServoUnit::new("R_LEG_AUX");
    v.set_velocity(-200_000).unwrap(); // heating depends on the magnitude
    v.update(50, 0).unwrap();
    assert_eq!(v.temperature, AMBIENT_TEMP_MILLI_C + 10);
}

#[test]
fn overheating_flips_status_to_overheat() {
    let mut u = ServoUnit::new("L_ARM_01");
    u.temperature = 89_995;
    u.set_velocity(200_000).unwrap();
    u.update(50, 0).unwrap();
    assert_eq!(u.temperature, 90_005);
    assert!(matches!(u.status, UnitStatus::Overheat));
}

#[test]
fn first_completed_update_ends_calibration() {
    let mut u = ServoUnit::new("L_ARM_02");
    assert!(matches!(u.status, UnitStatus::Calibrating));
    u.update(50, 0).unwrap();
    assert!(matches!(u.status, UnitStatus::Nominal));
}

#[test]
fn velocity_command_past_the_limit_is_rejected() {
    let mut u = ServoUnit::new("R_ARM_02");
    assert_eq!(
        u.set_velocity(VELOCITY_LIMIT_MICRO_RAD_S + 1),
        Err(KernelError::InvalidInput)
    );
    assert_eq!(u.velocity, 0);
    assert_eq!(u.set_velocity(-VELOCITY_LIMIT_MICRO_RAD_S), Ok(()));
    assert_eq!(u.velocity, -VELOCITY_LIMIT_MICRO_RAD_S);
}

#[test]
fn disjoint_updates_commute_against_sequential_baseline() {
    // Two units updated in either order, each with its own jitter sample,
    // end in identical states: no lost update on disjoint unit sets.
    let mut a1 = ServoUnit::new("A");
    let mut b1 = ServoUnit::new("B");
    a1.set_velocity(300_000).unwrap();
    b1.set_velocity(-40_000).unwrap();
    let mut a2 = a1.clone();
    let mut b2 = b1.clone();

    a1.update(50, 11).unwrap();
    b1.update(50, -7).unwrap();

    b2.update(50, -7).unwrap();
    a2.update(50, 11).unwrap();

    assert_eq!(a1.position, a2.position);
    assert_eq!(a1.temperature, a2.temperature);
    assert_eq!(b1.position, b2.position);
    assert_eq!(b1.temperature, b2.temperature);
}

#[test]
fn jitter_amplitude_is_the_documented_band() {
    assert_eq!(JITTER_AMPLITUDE_NANO_RAD, 1_000_000);
}
