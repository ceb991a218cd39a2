use mech_driver::reactor::{PlasmaReactor, FULL_INTEGRITY_MILLI};
use mech_driver::KernelError;

#[test]
fn fresh_core_readings() {
    let r = PlasmaReactor::new();
    assert_eq!(r.core_id, "RX-78-MKII");
    assert_eq!(r.current_output_mw, 0);
    assert_eq!(r.coolant_pressure_milli_psi, 2_400_000);
    assert_eq!(r.field_integrity_milli, FULL_INTEGRITY_MILLI);
    assert!(!r.is_unstable);
}

#[test]
fn injection_on_stable_core_raises_output_and_pressure() {
    let mut r = PlasmaReactor::new();
    let energy = r.inject_deuterium(1).expect("stable core accepts fuel");
    // 1 mg times 299_792_458, at 98 percent efficiency.
    assert_eq!(energy, 293_796_608);
    assert!(energy > 0);
    assert_eq!(r.current_output_mw, 293_796_608);
    assert_eq!(r.coolant_pressure_milli_psi, 2_400_000 + 5_000);
    assert!(r.current_output_mw > 0);
    assert!(r.coolant_pressure_milli_psi > 2_400_000);
}

#[test]
fn zero_amount_is_rejected_without_mutation() {
    let mut r = PlasmaReactor::new();
    assert_eq!(r.inject_deuterium(0), Err(KernelError::InvalidInput));
    assert_eq!(r.current_output_mw, 0);
    assert_eq!(r.coolant_pressure_milli_psi, 2_400_000);
}

#[test]
fn unstable_core_locks_out_injection_without_mutation() {
    let mut r = PlasmaReactor::new();
    r.is_unstable = true;
    for amount in [1u64, 1_000, 60_000_000_000] {
        assert_eq!(r.inject_deuterium(amount), Err(KernelError::SafetyLockout));
        assert_eq!(r.current_output_mw, 0);
        assert_eq!(r.coolant_pressure_milli_psi, 2_400_000);
        assert_eq!(r.field_integrity_milli, FULL_INTEGRITY_MILLI);
    }
}

#[test]
fn scram_zeroes_and_is_idempotent() {
    let mut once = PlasmaReactor::new();
    once.inject_deuterium(5).unwrap();
    once.scram();
    let mut twice = PlasmaReactor::new();
    twice.inject_deuterium(5).unwrap();
    twice.scram();
    twice.scram();
    for r in [&once, &twice] {
        assert_eq!(r.current_output_mw, 0);
        assert_eq!(r.field_integrity_milli, 0);
        assert_eq!(r.coolant_pressure_milli_psi, 0);
    }
    assert_eq!(once.core_id, twice.core_id);
    assert_eq!(once.is_unstable, twice.is_unstable);
}

#[test]
fn scram_is_irreversible_within_the_component() {
    // Scram marks the core unstable, so fuel injection stays locked out
    // afterwards: only an external reset (out of scope) could resume.
    let mut r = PlasmaReactor::new();
    assert!(!r.is_unstable);
    r.scram();
    assert!(r.is_unstable);
    assert_eq!(r.inject_deuterium(1), Err(KernelError::SafetyLockout));
    assert_eq!(r.current_output_mw, 0);
}

#[test]
fn containment_check_is_deterministic_and_thresholded() {
    let mut r = PlasmaReactor::new();
    // Full integrity rides out the largest fluctuation (90 thousandths).
    for ts in 0..40u64 {
        assert!(r.check_containment(ts));
        assert_eq!(r.check_containment(ts), r.check_containment(ts));
    }
    // Integrity 0.490 at the largest fluctuation sits exactly on 0.400: holds.
    r.field_integrity_milli = 490;
    assert!(r.check_containment(9));
    // Integrity 0.489 at the same timestamp falls below the threshold.
    r.field_integrity_milli = 489;
    assert!(!r.check_containment(9));
    // The same core can pass at a calm timestamp (fluctuation zero).
    assert!(r.check_containment(10));
    // A scrammed core has no integrity left at all.
    r.scram();
    for ts in 0..20u64 {
        assert!(!r.check_containment(ts));
    }
}

#[test]
fn output_counter_saturates_instead_of_wrapping() {
    let mut r = PlasmaReactor::new();
    r.current_output_mw = u64::MAX - 10;
    r.inject_deuterium(1).unwrap();
    assert_eq!(r.current_output_mw, u64::MAX);
}

#[test]
fn largest_allowed_injection_is_exact() {
    let mut r = PlasmaReactor::new();
    let energy = r.inject_deuterium(60_000_000_000).unwrap();
    // 60e9 mg times 299_792_458 times 98 over 100.
    assert_eq!(energy, 17_627_796_530_400_000_000);
    assert_eq!(r.current_output_mw, 17_627_796_530_400_000_000);
}
