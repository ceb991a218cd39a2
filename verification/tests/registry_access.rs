use mech_driver::actuator::JITTER_AMPLITUDE_NANO_RAD;
use mech_driver::registry::ActuatorRegistry;
use mech_driver::KernelError;

#[test]
fn attach_and_get_round_trip() {
    let mut reg = ActuatorRegistry::new();
    assert_eq!(reg.attach("L_ARM_01"), Ok(()));
    assert_eq!(reg.attach("R_ARM_01"), Ok(()));
    let u = reg.get("L_ARM_01").expect("attached unit must be found");
    assert_eq!(u.id, "L_ARM_01");
    assert!(reg.get("TORSO_GYRO").is_none());
}

#[test]
fn duplicate_identifier_is_rejected() {
    let mut reg = ActuatorRegistry::new();
    assert_eq!(reg.attach("L_ARM_01"), Ok(()));
    assert_eq!(reg.attach("L_ARM_01"), Err(KernelError::InvalidInput));
    assert_eq!(reg.units.len(), 1);
}

#[test]
fn attach_after_seal_is_rejected() {
    let mut reg = ActuatorRegistry::new();
    assert_eq!(reg.attach("L_ARM_01"), Ok(()));
    reg.seal();
    assert_eq!(reg.attach("R_ARM_01"), Err(KernelError::InvalidInput));
    assert_eq!(reg.units.len(), 1);
}

#[test]
fn sweep_rejects_non_positive_dt_without_mutation() {
    let mut reg = ActuatorRegistry::new();
    reg.attach("L_ARM_01").unwrap();
    reg.units[0].set_velocity(10_000).unwrap();
    assert_eq!(reg.for_each_unit(0), Err(KernelError::InvalidInput));
    assert_eq!(reg.for_each_unit(-3), Err(KernelError::InvalidInput));
    assert_eq!(reg.units[0].position, 0);
}

#[test]
fn sweep_updates_every_unit_exactly_once_within_jitter_band() {
    let mut reg = ActuatorRegistry::new();
    reg.attach("L_ARM_01").unwrap();
    reg.attach("R_ARM_01").unwrap();
    reg.units[0].set_velocity(1_000_000).unwrap(); // 1 rad/s
    reg.units[1].set_velocity(0).unwrap();

    assert_eq!(reg.for_each_unit(50), Ok(()));

    // Unit 0 moved by velocity * dt = 50_000_000 nanorad, plus bounded jitter.
    let drift0 = reg.units[0].position - 50_000_000;
    assert!(drift0.abs() < JITTER_AMPLITUDE_NANO_RAD);
    // Unit 1 only jittered; if the noise source left its band this fails.
    assert!(reg.units[1].position.abs() < JITTER_AMPLITUDE_NANO_RAD);
    // Temperatures are jitter-free and exact: unit 0 heats, unit 1 idles.
    assert_eq!(reg.units[0].temperature, 35_000 + 50);
    assert_eq!(reg.units[1].temperature, 35_000);
}

#[test]
fn sweep_of_an_empty_registry_succeeds() {
    let mut reg = ActuatorRegistry::new();
    assert_eq!(reg.for_each_unit(50), Ok(()));
    assert_eq!(reg.units.len(), 0);
}
