use mech_driver::ballistics::{BallisticComputer, Projectile, Vector3Milli, STANDARD_GRAVITY_UM_S2};

fn standard_round(muzzle_mm_s: u64) -> Projectile {
    // 45 kg shell, drag coefficient 0.295, 120 mm caliber.
    Projectile::new(45_000_000, 295, muzzle_mm_s, 120_000)
}

#[test]
fn computer_boots_with_standard_constants() {
    let c = BallisticComputer::new();
    assert_eq!(c.gravity_um_s2, STANDARD_GRAVITY_UM_S2);
    assert_eq!(c.wind_mm_s, Vector3Milli { x: 2_500, y: 0, z: -1_200 });
    assert!(c.coriolis_effect);
}

#[test]
fn far_target_at_low_muzzle_velocity_has_no_solution() {
    // 100 km at 300 m/s: g*d/v^2 is about 10.9, far past one.
    let c = BallisticComputer::new();
    let origin = Vector3Milli::new(0, 0, 0);
    let target = Vector3Milli::new(100_000_000, 0, 0);
    let r = c.calculate_solution(origin, target, standard_round(300_000));
    assert!(r.is_none());
}

#[test]
fn out_of_range_is_independent_of_other_parameters() {
    let c = BallisticComputer::new();
    let origin = Vector3Milli::new(0, 0, 0);
    let target = Vector3Milli::new(100_000_000, 0, 0);
    for (mass, drag, caliber) in [(1, 1, 1), (90_000_000, 500, 155_000)] {
        let ammo = Projectile::new(mass, drag, 300_000, caliber);
        assert!(c.calculate_solution(origin, target, ammo).is_none());
    }
}

#[test]
fn zero_muzzle_velocity_reaches_nothing() {
    let c = BallisticComputer::new();
    let origin = Vector3Milli::new(0, 0, 0);
    let target = Vector3Milli::new(1, 0, 0);
    assert!(c.calculate_solution(origin, target, standard_round(0)).is_none());
}

#[test]
fn reachable_target_gets_a_positive_low_angle_solution() {
    // 500 m at 400 m/s: the worked scenario.
    let c = BallisticComputer::new();
    let origin = Vector3Milli::new(0, 0, 0);
    let target = Vector3Milli::new(500_000, 0, 0);
    let s = c
        .calculate_solution(origin, target, standard_round(400_000))
        .expect("500 m at 400 m/s is reachable");
    assert!(s.pitch_millideg > 0);
    assert!(s.flight_time_ms > 0);
    assert!(s.impact_velocity_mm_s < 400_000);
    // Exact fixed-point values for this geometry.
    assert_eq!(s.pitch_millideg, 878);
    assert_eq!(s.yaw_millideg, 156);
    assert_eq!(s.flight_time_ms, 1_250);
    assert_eq!(s.impact_velocity_mm_s, 340_000);
}

#[test]
fn point_blank_shot_solves_flat() {
    let c = BallisticComputer::new();
    let p = Vector3Milli::new(7, -3, 2);
    let s = c
        .calculate_solution(p, p, standard_round(400_000))
        .expect("zero distance is reachable");
    assert_eq!(s.pitch_millideg, 0);
    assert_eq!(s.yaw_millideg, 0);
    assert_eq!(s.flight_time_ms, 0);
    assert_eq!(s.impact_velocity_mm_s, 340_000);
}

#[test]
fn solution_depends_only_on_separation() {
    let c = BallisticComputer::new();
    let a = c
        .calculate_solution(
            Vector3Milli::new(0, 0, 0),
            Vector3Milli::new(300_000, 400_000, 0),
            standard_round(400_000),
        )
        .unwrap();
    let b = c
        .calculate_solution(
            Vector3Milli::new(1_000, 2_000, 3_000),
            Vector3Milli::new(301_000, 402_000, 3_000),
            standard_round(400_000),
        )
        .unwrap();
    assert_eq!(a, b);
    // Both separations are 500 m, so this matches the worked scenario.
    assert_eq!(a.pitch_millideg, 878);
}

#[test]
fn intercept_prediction_extrapolates_linearly() {
    let c = BallisticComputer::new();
    let p = c.predict_intercept(
        Vector3Milli::new(1_000, 2_000, 3_000),
        Vector3Milli::new(100, -200, 0),
    );
    // Lead time is 1.2 s: delta is velocity times 1200 over 1000.
    assert_eq!(p, Vector3Milli { x: 1_120, y: 1_760, z: 3_000 });
}

#[test]
fn intercept_prediction_rounds_toward_zero() {
    let c = BallisticComputer::new();
    let p = c.predict_intercept(
        Vector3Milli::new(0, 0, 0),
        Vector3Milli::new(999, -999, 1),
    );
    assert_eq!(p, Vector3Milli { x: 1_198, y: -1_198, z: 1 });
}

#[test]
fn predicted_point_feeds_back_into_the_solver() {
    let c = BallisticComputer::new();
    let aim = c.predict_intercept(
        Vector3Milli::new(400_000, 0, 0),
        Vector3Milli::new(50_000, 0, 0),
    );
    assert_eq!(aim.x, 460_000);
    let s = c
        .calculate_solution(Vector3Milli::new(0, 0, 0), aim, standard_round(400_000))
        .expect("460 m at 400 m/s is reachable");
    assert!(s.pitch_millideg > 0);
}
