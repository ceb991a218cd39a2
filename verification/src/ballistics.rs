//! Pure ballistic solver: target geometry plus projectile parameters give an
//! aim solution, or "no solution" when the target is out of range at this
//! muzzle velocity. Out of range is a normal outcome, not an error.
//!
//! Geometry is carried in millimetres (positions) and millimetres per second
//! (velocities); gravity in micrometres per second squared; angles in
//! millidegrees. The launch angle takes the low-angle root of the range
//! equation through a fixed-point arcsine surrogate, whose cosine then stays
//! well away from zero, so the flight-time division is always defined.

use vstd::prelude::*;

use vstd::arithmetic::div_mod::lemma_div_is_ordered;
use vstd::arithmetic::div_mod::lemma_div_is_ordered_by_denominator;
use vstd::arithmetic::div_mod::lemma_div_multiples_vanish;
use vstd::arithmetic::div_mod::lemma_fundamental_div_mod;

verus! {

/// Tracked objects stay inside this coordinate band (1e10 m).
pub const TRACK_LIMIT_MM: i64 = 10_000_000_000_000;
/// The solver accepts geometry inside this wider band, so a predicted
/// intercept point can always be fed back into it.
pub const SOLVE_LIMIT_MM: i64 = 25_000_000_000_000;
/// Largest muzzle velocity the solver accepts (1e7 m/s).
pub const MUZZLE_LIMIT_MM_S: u64 = 10_000_000_000;
/// Largest gravity the solver accepts (100 m/s^2).
pub const GRAVITY_LIMIT_UM_S2: u64 = 100_000_000;
/// Largest wind component magnitude (1000 m/s).
pub const WIND_LIMIT_MM_S: i64 = 1_000_000;
/// Standard gravity, micrometres per second squared.
pub const STANDARD_GRAVITY_UM_S2: u64 = 9_806_650;
/// Fixed look-ahead for moving targets, milliseconds.
pub const LEAD_TIME_MS: u64 = 1_200;
/// Impact velocity is this percentage of muzzle velocity: a fixed drag-loss
/// surrogate, not an integrated drag model.
pub const DRAG_KEEP_PERCENT: u64 = 85;

/// A point or velocity in 3-space, millimetres or millimetres per second.
#[derive(Clone, Copy, Debug, PartialEq, Eq, Structural)]
pub struct Vector3Milli {
    pub x: i64,
    pub y: i64,
    pub z: i64,
}

impl Vector3Milli {
    /// Inside the tracking band.
    pub open spec fn in_track_band(self) -> bool {
        &&& -TRACK_LIMIT_MM <= self.x <= TRACK_LIMIT_MM
        &&& -TRACK_LIMIT_MM <= self.y <= TRACK_LIMIT_MM
        &&& -TRACK_LIMIT_MM <= self.z <= TRACK_LIMIT_MM
    }

    /// Inside the solver's wider band.
    pub open spec fn in_solve_band(self) -> bool {
        &&& -SOLVE_LIMIT_MM <= self.x <= SOLVE_LIMIT_MM
        &&& -SOLVE_LIMIT_MM <= self.y <= SOLVE_LIMIT_MM
        &&& -SOLVE_LIMIT_MM <= self.z <= SOLVE_LIMIT_MM
    }

    pub fn new(x: i64, y: i64, z: i64) -> (v: Vector3Milli)
        ensures
            v == (Vector3Milli { x, y, z }),
    {
        Vector3Milli { x, y, z }
    }
}

/// Projectile parameters. Only the muzzle velocity enters the surrogate
/// model; the other parameters are carried for telemetry.
#[derive(Clone, Copy, Debug, PartialEq, Eq, Structural)]
pub struct Projectile {
    pub mass_mg: u64,
    pub drag_coefficient_milli: u64,
    pub muzzle_velocity_mm_s: u64,
    pub caliber_um: u64,
}

impl Projectile {
    /// The muzzle velocity stays inside the solver's band.
    pub open spec fn wf(self) -> bool {
        self.muzzle_velocity_mm_s <= MUZZLE_LIMIT_MM_S
    }

    pub fn new(mass_mg: u64, drag_coefficient_milli: u64, muzzle_velocity_mm_s: u64, caliber_um: u64) -> (p: Projectile)
        requires
            muzzle_velocity_mm_s <= MUZZLE_LIMIT_MM_S,
        ensures
            p == (Projectile { mass_mg, drag_coefficient_milli, muzzle_velocity_mm_s, caliber_um }),
            p.wf(),
    {
        Projectile { mass_mg, drag_coefficient_milli, muzzle_velocity_mm_s, caliber_um }
    }
}

/// An aim solution: angles in millidegrees, flight time in milliseconds,
/// impact velocity in millimetres per second.
#[derive(Clone, Copy, Debug, PartialEq, Eq, Structural)]
pub struct TargetingSolution {
    pub pitch_millideg: i64,
    pub yaw_millideg: i64,
    pub flight_time_ms: u64,
    pub impact_velocity_mm_s: u64,
}

/// The firing computer: wind, a coriolis flag (carried, not modelled), and
/// the gravity constant in use.
pub struct BallisticComputer {
    pub wind_mm_s: Vector3Milli,
    pub coriolis_effect: bool,
    pub gravity_um_s2: u64,
}

impl BallisticComputer {
    pub open spec fn wf(self) -> bool {
        &&& self.gravity_um_s2 <= GRAVITY_LIMIT_UM_S2
        &&& -WIND_LIMIT_MM_S <= self.wind_mm_s.x <= WIND_LIMIT_MM_S
        &&& -WIND_LIMIT_MM_S <= self.wind_mm_s.y <= WIND_LIMIT_MM_S
        &&& -WIND_LIMIT_MM_S <= self.wind_mm_s.z <= WIND_LIMIT_MM_S
    }

    /// The standard firing computer: a fixed prevailing wind and standard
    /// gravity.
    pub fn new() -> (c: BallisticComputer)
        ensures
            c.wf(),
            c.wind_mm_s == (Vector3Milli { x: 2_500i64, y: 0i64, z: -1_200i64 }),
            c.coriolis_effect,
            c.gravity_um_s2 == STANDARD_GRAVITY_UM_S2,
    {
        BallisticComputer {
            wind_mm_s: Vector3Milli { x: 2_500, y: 0, z: -1_200 },
            coriolis_effect: true,
            gravity_um_s2: STANDARD_GRAVITY_UM_S2,
        }
    }
}

/// Squared straight-line distance between two points, square millimetres.
pub open spec fn dist_sq(o: Vector3Milli, t: Vector3Milli) -> int {
    (t.x - o.x) * (t.x - o.x) + (t.y - o.y) * (t.y - o.y) + (t.z - o.z) * (t.z - o.z)
}

/// `r` is the integer square root of `n`.
pub open spec fn is_isqrt(n: int, r: int) -> bool {
    0 <= r && r * r <= n && n < (r + 1) * (r + 1)
}

/// The target is out of range when `g * d / v^2` exceeds one; in these units
/// that is `g * d > 1000 * v^2` exactly.
pub open spec fn out_of_range(g: int, d: int, v: int) -> bool {
    g * d > 1000 * v * v
}

/// Fixed-point arcsine surrogate in microradians for an argument in
/// millionths of one: the cubic term of the series.
pub open spec fn asin_micro(x: int) -> int {
    x + x * x * x / 6_000_000_000_000
}

/// Fixed-point cosine surrogate in millionths for an angle in microradians:
/// the quadratic term of the series.
pub open spec fn cos_micro(t: int) -> int {
    1_000_000 - t * t / 2_000_000
}

/// Windage yaw in millidegrees: five percent of the crosswind drift over the
/// projected time of flight, rounded toward zero.
pub open spec fn windage_yaw_millideg(wind_x: int, d: int, v: int) -> int {
    if wind_x >= 0 {
        wind_x * d / (20 * v)
    } else {
        -((-wind_x) * d / (20 * v))
    }
}

/// The solver's result as a function of the straight-line distance `d` (mm):
/// no solution at zero muzzle velocity or out of range; otherwise the
/// low-angle launch solution with windage, flight time and drag-attenuated
/// impact velocity.
pub open spec fn solution_for_distance(c: BallisticComputer, ammo: Projectile, d: int) -> Option<
    TargetingSolution,
> {
    let v = ammo.muzzle_velocity_mm_s as int;
    let g = c.gravity_um_s2 as int;
    if v == 0 || out_of_range(g, d, v) {
        None
    } else {
        let check = g * d * 1000 / (v * v);
        let theta = asin_micro(check) / 2;
        let cosv = cos_micro(theta);
        Some(
            TargetingSolution {
                pitch_millideg: (theta * 180_000 / 3_141_593) as i64,
                yaw_millideg: windage_yaw_millideg(c.wind_mm_s.x as int, d, v) as i64,
                flight_time_ms: (d * 1_000_000_000 / (v * cosv)) as u64,
                impact_velocity_mm_s: (v * DRAG_KEEP_PERCENT / 100) as u64,
            },
        )
    }
}

/// Two integer square roots of the same number are the same number.
pub proof fn lemma_isqrt_unique(n: int, r1: int, r2: int)
    requires
        is_isqrt(n, r1),
        is_isqrt(n, r2),
    ensures
        r1 == r2,
{
    assert(r1 == r2) by (nonlinear_arith)
        requires
            0 <= r1 && r1 * r1 <= n && n < (r1 + 1) * (r1 + 1),
            0 <= r2 && r2 * r2 <= n && n < (r2 + 1) * (r2 + 1),
    ;
}

/// Integer square root by bisection.
pub fn integer_sqrt(n: u128) -> (r: u128)
    ensures
        is_isqrt(n as int, r as int),
        r <= 0xFFFF_FFFF_FFFF_FFFF,
{
    let mut lo: u128 = 0;
    let mut hi: u128 = 0x1_0000_0000_0000_0000;
    proof {
        assert((0x1_0000_0000_0000_0000 as int) * (0x1_0000_0000_0000_0000 as int) > u128::MAX
            as int) by (nonlinear_arith);
    }
    while lo + 1 < hi
        invariant
            lo < hi,
            hi <= 0x1_0000_0000_0000_0000,
            (lo as int) * (lo as int) <= n as int,
            (n as int) < (hi as int) * (hi as int),
        decreases hi - lo,
    {
        let mid: u128 = lo + (hi - lo) / 2;
        proof {
            assert((mid as int) * (mid as int) <= (0xFFFF_FFFF_FFFF_FFFF as int) * (
            0xFFFF_FFFF_FFFF_FFFF as int)) by (nonlinear_arith)
                requires
                    0 <= mid <= 0xFFFF_FFFF_FFFF_FFFF,
            ;
        }
        if mid * mid <= n {
            lo = mid;
        } else {
            hi = mid;
        }
    }
    lo
}

impl BallisticComputer {
    /// Computes the aim solution for a shot from `origin` at `target`.
    ///
    /// Returns `None` exactly when the muzzle velocity is zero or the range
    /// check `g * d / v^2` exceeds one; otherwise the solution determined by
    /// the straight-line distance. The impact velocity of a real solution is
    /// always strictly below the muzzle velocity, and the pitch is never
    /// negative.
    pub fn calculate_solution(
        &self,
        origin: Vector3Milli,
        target: Vector3Milli,
        ammo: Projectile,
    ) -> (r: Option<TargetingSolution>)
        requires
            self.wf(),
            ammo.wf(),
            origin.in_solve_band(),
            target.in_solve_band(),
        ensures
            forall|d: int|
                is_isqrt(dist_sq(origin, target), d) ==> r == solution_for_distance(
                    *self,
                    ammo,
                    d,
                ),
            ammo.muzzle_velocity_mm_s == 0 ==> r is None,
            r matches Some(s) ==> s.impact_velocity_mm_s < ammo.muzzle_velocity_mm_s
                && s.pitch_millideg >= 0,
    {
        let dx: i128 = target.x as i128 - origin.x as i128;
        let dy: i128 = target.y as i128 - origin.y as i128;
        let dz: i128 = target.z as i128 - origin.z as i128;
        proof {
            assert(0 <= dx * dx <= 2_500_000_000_000_000_000_000_000_000 && 0 <= dy * dy
                <= 2_500_000_000_000_000_000_000_000_000 && 0 <= dz * dz
                <= 2_500_000_000_000_000_000_000_000_000) by (nonlinear_arith)
                requires
                    -50_000_000_000_000 <= dx <= 50_000_000_000_000,
                    -50_000_000_000_000 <= dy <= 50_000_000_000_000,
                    -50_000_000_000_000 <= dz <= 50_000_000_000_000,
            ;
        }
        let dsq: u128 = (dx * dx + dy * dy + dz * dz) as u128;
        let d: u128 = integer_sqrt(dsq);
        proof {
            assert(d <= 100_000_000_000_000) by (nonlinear_arith)
                requires
                    0 <= d,
                    (d as int) * (d as int) <= 7_500_000_000_000_000_000_000_000_000,
            ;
        }
        let v: u64 = ammo.muzzle_velocity_mm_s;
        if v == 0 {
            return None;
        }
        proof {
            assert(dsq as int == dist_sq(origin, target));
            assert(1 <= (v as int) * (v as int) <= 100_000_000_000_000_000_000)
                by (nonlinear_arith)
                requires
                    1 <= v <= 10_000_000_000,
            ;
            assert((self.gravity_um_s2 as int) * (d as int) <= 10_000_000_000_000_000_000_000)
                by (nonlinear_arith)
                requires
                    0 <= self.gravity_um_s2 <= 100_000_000,
                    0 <= d <= 100_000_000_000_000,
            ;
        }
        let vsq: u128 = (v as u128) * (v as u128);
        let gd: u128 = (self.gravity_um_s2 as u128) * d;
        if gd > 1000 * vsq {
            proof {
                assert(1000int * (v as int) * (v as int) == 1000int * ((v as int) * (
                v as int))) by (nonlinear_arith);
                assert(out_of_range(self.gravity_um_s2 as int, d as int, v as int));
                assert forall|dd: int|
                    is_isqrt(dist_sq(origin, target), dd) implies None::<TargetingSolution>
                    == solution_for_distance(*self, ammo, dd) by {
                    lemma_isqrt_unique(dist_sq(origin, target), dd, d as int);
                }
            }
            return None;
        }
        let check: u128 = gd * 1000 / vsq;
        proof {
            lemma_div_is_ordered(gd as int * 1000, 1_000_000 * (vsq as int), vsq as int);
            lemma_div_multiples_vanish(1_000_000, vsq as int);
            assert(check <= 1_000_000);
            assert(0 <= (check as int) * (check as int) <= 1_000_000_000_000 && 0 <= (
            check as int) * (check as int) * (check as int) <= 1_000_000_000_000_000_000)
                by (nonlinear_arith)
                requires
                    0 <= check <= 1_000_000,
            ;
            lemma_div_is_ordered(
                (check as int) * (check as int) * (check as int),
                1_000_000_000_000_000_000,
                6_000_000_000_000,
            );
        }
        let theta: u128 = (check + check * check * check / 6_000_000_000_000) / 2;
        proof {
            assert(theta <= 583_333);
            assert((theta as int) * (theta as int) <= 583_333 * 583_333) by (nonlinear_arith)
                requires
                    0 <= theta <= 583_333,
            ;
            lemma_div_is_ordered((theta as int) * (theta as int), 583_333int * 583_333, 2_000_000);
        }
        let cosv: u128 = 1_000_000 - theta * theta / 2_000_000;
        proof {
            assert(cosv >= 829_861);
            assert((v as int) * (cosv as int) >= 829_861 && (v as int) * (cosv as int)
                <= 10_000_000_000_000_000) by (nonlinear_arith)
                requires
                    1 <= v <= 10_000_000_000,
                    829_861 <= cosv <= 1_000_000,
            ;
            lemma_div_is_ordered_by_denominator(
                d as int * 1_000_000_000,
                829_861,
                (v as int) * (cosv as int),
            );
            lemma_div_is_ordered(
                d as int * 1_000_000_000,
                100_000_000_000_000int * 1_000_000_000,
                829_861,
            );
        }
        let flight: u64 = (d * 1_000_000_000 / ((v as u128) * cosv)) as u64;
        proof {
            lemma_fundamental_div_mod(85 * (v as int), 100);
        }
        let impact: u64 = ((v as u128) * DRAG_KEEP_PERCENT as u128 / 100) as u64;
        let wx: i64 = self.wind_mm_s.x;
        let yaw: i64 = if wx >= 0 {
            proof {
                assert((wx as int) * (d as int) <= 100_000_000_000_000_000_000)
                    by (nonlinear_arith)
                    requires
                        0 <= wx <= 1_000_000,
                        0 <= d <= 100_000_000_000_000,
                ;
                lemma_div_is_ordered_by_denominator(
                    (wx as int) * (d as int),
                    20,
                    20 * (v as int),
                );
            }
            ((wx as u128) * d / (20 * (v as u128))) as i64
        } else {
            proof {
                assert(((-wx) as int) * (d as int) <= 100_000_000_000_000_000_000)
                    by (nonlinear_arith)
                    requires
                        0 <= -wx <= 1_000_000,
                        0 <= d <= 100_000_000_000_000,
                ;
                lemma_div_is_ordered_by_denominator(
                    ((-wx) as int) * (d as int),
                    20,
                    20 * (v as int),
                );
            }
            -((((-wx) as u128) * d / (20 * (v as u128))) as i64)
        };
        let sol = TargetingSolution {
            pitch_millideg: (theta * 180_000 / 3_141_593) as i64,
            yaw_millideg: yaw,
            flight_time_ms: flight,
            impact_velocity_mm_s: impact,
        };
        proof {
            assert(1000int * (v as int) * (v as int) == 1000int * ((v as int) * (
            v as int))) by (nonlinear_arith);
            assert(!out_of_range(self.gravity_um_s2 as int, d as int, v as int));
            assert(Some(sol) == solution_for_distance(*self, ammo, d as int));
            assert forall|dd: int|
                is_isqrt(dist_sq(origin, target), dd) implies Some(sol)
                == solution_for_distance(*self, ammo, dd) by {
                lemma_isqrt_unique(dist_sq(origin, target), dd, d as int);
            }
        }
        Some(sol)
    }

    /// Linear extrapolation of a moving target over the fixed lead time,
    /// component by component, rounded toward zero.
    pub fn predict_intercept(
        &self,
        target_pos: Vector3Milli,
        target_velocity: Vector3Milli,
    ) -> (r: Vector3Milli)
        requires
            target_pos.in_track_band(),
            target_velocity.in_track_band(),
        ensures
            r.x == lead_component(target_pos.x as int, target_velocity.x as int),
            r.y == lead_component(target_pos.y as int, target_velocity.y as int),
            r.z == lead_component(target_pos.z as int, target_velocity.z as int),
            r.in_solve_band(),
    {
        Vector3Milli {
            x: lead_axis(target_pos.x, target_velocity.x),
            y: lead_axis(target_pos.y, target_velocity.y),
            z: lead_axis(target_pos.z, target_velocity.z),
        }
    }
}

/// One coordinate of the predicted intercept point: position plus velocity
/// times the fixed lead time, rounded toward zero.
pub open spec fn lead_component(p: int, vel: int) -> int {
    if vel >= 0 {
        p + vel * LEAD_TIME_MS / 1000
    } else {
        p - (-vel) * LEAD_TIME_MS / 1000
    }
}

/// Extrapolates one axis over the lead time.
fn lead_axis(p: i64, vel: i64) -> (r: i64)
    requires
        -TRACK_LIMIT_MM <= p <= TRACK_LIMIT_MM,
        -TRACK_LIMIT_MM <= vel <= TRACK_LIMIT_MM,
    ensures
        r == lead_component(p as int, vel as int),
        -SOLVE_LIMIT_MM <= r <= SOLVE_LIMIT_MM,
{
    if vel >= 0 {
        proof {
            lemma_div_is_ordered(
                vel as int * (LEAD_TIME_MS as int),
                TRACK_LIMIT_MM as int * (LEAD_TIME_MS as int),
                1000,
            );
        }
        let delta: i64 = ((vel as u64) * LEAD_TIME_MS / 1000) as i64;
        p + delta
    } else {
        proof {
            lemma_div_is_ordered(
                (-vel) as int * (LEAD_TIME_MS as int),
                TRACK_LIMIT_MM as int * (LEAD_TIME_MS as int),
                1000,
            );
        }
        let delta: i64 = (((-vel) as u64) * LEAD_TIME_MS / 1000) as i64;
        p - delta
    }
}

} // verus!
