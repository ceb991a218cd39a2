//! A servo actuator unit: one mechanical joint's kinematic and thermal state,
//! advanced by exactly one mutation operation per control-loop tick.
//!
//! Units are scaled integers: position in nanoradians, angular velocity in
//! microradians per second (which is exactly nanoradians per millisecond),
//! temperature in millidegrees Celsius, time steps in milliseconds.

use vstd::prelude::*;

use vstd::arithmetic::div_mod::lemma_fundamental_div_mod;
use vstd::arithmetic::div_mod::lemma_mod_bound;
use vstd::math::abs;

use crate::KernelError;

verus! {

/// Ambient temperature that an idle joint cools toward (35 C).
pub const AMBIENT_TEMP_MILLI_C: i64 = 35_000;
/// Sensor ceiling: a reading above this is clamped (1000 C).
pub const TEMP_CEIL_MILLI_C: i64 = 1_000_000;
/// Above this temperature the unit's status turns to Overheat (90 C).
pub const OVERHEAT_TEMP_MILLI_C: i64 = 90_000;
/// At or below this speed the joint counts as idle and dissipates heat (0.1 rad/s).
pub const IDLE_VELOCITY_MICRO_RAD_S: i64 = 100_000;
/// Heating per tick is the velocity magnitude divided by this (0.05 C per rad/s).
pub const HEAT_PER_VELOCITY_DIVISOR: i64 = 20_000;
/// Joint positions are clamped to this travel limit (9e8 rad of winding).
pub const POSITION_LIMIT_NANO_RAD: i64 = 900_000_000_000_000_000;
/// Largest velocity a unit accepts as a command (1000 rad/s).
pub const VELOCITY_LIMIT_MICRO_RAD_S: i64 = 1_000_000_000;
/// Mechanical jitter per update stays within this amplitude (0.001 rad).
pub const JITTER_AMPLITUDE_NANO_RAD: i64 = 1_000_000;

/// Operational status of a single servo unit.
#[derive(Clone, Copy, Debug, PartialEq, Eq, Structural)]
pub enum UnitStatus {
    Calibrating,
    Nominal,
    Overheat,
    Fault,
}

/// One simulated mechanical joint.
#[derive(Clone, Debug)]
pub struct ServoUnit {
    /// Unique identifier; uniqueness is the registry's invariant.
    pub id: String,
    /// Angular position in nanoradians, clamped to the travel limit.
    pub position: i64,
    /// Angular velocity in microradians per second.
    pub velocity: i64,
    /// Temperature in millidegrees Celsius.
    pub temperature: i64,
    pub status: UnitStatus,
}

/// One idle cooling step: the gap to ambient shrinks to 99/100 of itself,
/// rounded toward ambient.
pub open spec fn idle_cooled(t: int) -> int {
    if t >= AMBIENT_TEMP_MILLI_C {
        AMBIENT_TEMP_MILLI_C + 99 * (t - AMBIENT_TEMP_MILLI_C) / 100
    } else {
        AMBIENT_TEMP_MILLI_C - 99 * (AMBIENT_TEMP_MILLI_C - t) / 100
    }
}

/// One heating step: temperature rises in proportion to velocity magnitude,
/// saturating at the sensor ceiling.
pub open spec fn heated(t: int, v: int) -> int {
    let risen = t + abs(v) as int / (HEAT_PER_VELOCITY_DIVISOR as int);
    if risen > TEMP_CEIL_MILLI_C {
        TEMP_CEIL_MILLI_C as int
    } else {
        risen
    }
}

/// Positions out of the travel band are clamped to its edge.
pub open spec fn clamped_position(p: int) -> int {
    if p > POSITION_LIMIT_NANO_RAD {
        POSITION_LIMIT_NANO_RAD as int
    } else if p < -POSITION_LIMIT_NANO_RAD {
        -POSITION_LIMIT_NANO_RAD as int
    } else {
        p
    }
}

impl ServoUnit {
    /// Well-formedness: every field stays in its physical band.
    pub open spec fn wf(self) -> bool {
        &&& 0 <= self.temperature <= TEMP_CEIL_MILLI_C
        &&& -POSITION_LIMIT_NANO_RAD <= self.position <= POSITION_LIMIT_NANO_RAD
        &&& -VELOCITY_LIMIT_MICRO_RAD_S <= self.velocity <= VELOCITY_LIMIT_MICRO_RAD_S
    }

    /// Idle means the joint moves no faster than the idle threshold.
    pub open spec fn is_idle(self) -> bool {
        abs(self.velocity as int) <= IDLE_VELOCITY_MICRO_RAD_S
    }

    /// The temperature one update step produces.
    pub open spec fn stepped_temperature(self) -> int {
        if self.is_idle() {
            idle_cooled(self.temperature as int)
        } else {
            heated(self.temperature as int, self.velocity as int)
        }
    }

    /// The status one update step produces: overheat dominates, and the first
    /// completed update ends calibration.
    pub open spec fn stepped_status(self) -> UnitStatus {
        if self.stepped_temperature() > OVERHEAT_TEMP_MILLI_C {
            UnitStatus::Overheat
        } else if self.status == UnitStatus::Calibrating {
            UnitStatus::Nominal
        } else {
            self.status
        }
    }

    /// The whole state one update step produces for a time step `dt_ms` and a
    /// jitter sample (nanoradians).
    pub open spec fn stepped(self, dt_ms: int, jitter: int) -> ServoUnit {
        ServoUnit {
            position: clamped_position(self.position + self.velocity * dt_ms + jitter) as i64,
            temperature: self.stepped_temperature() as i64,
            status: self.stepped_status(),
            ..self
        }
    }

    /// A fresh unit: at rest, at ambient temperature, calibrating.
    pub fn new(id: &str) -> (u: ServoUnit)
        ensures
            u.wf(),
            u.id@ == id@,
            u.position == 0,
            u.velocity == 0,
            u.temperature == AMBIENT_TEMP_MILLI_C,
            u.status == UnitStatus::Calibrating,
    {
        ServoUnit {
            id: id.to_owned(),
            position: 0,
            velocity: 0,
            temperature: AMBIENT_TEMP_MILLI_C,
            status: UnitStatus::Calibrating,
        }
    }

    /// Commands a new angular velocity; a command past the mechanical limit is
    /// rejected whole.
    pub fn set_velocity(&mut self, v: i64) -> (r: Result<(), KernelError>)
        requires
            old(self).wf(),
        ensures
            final(self).wf(),
            (-VELOCITY_LIMIT_MICRO_RAD_S <= v <= VELOCITY_LIMIT_MICRO_RAD_S) ==> {
                &&& r == Ok::<(), KernelError>(())
                &&& *final(self) == (ServoUnit { velocity: v, ..*old(self) })
            },
            !(-VELOCITY_LIMIT_MICRO_RAD_S <= v <= VELOCITY_LIMIT_MICRO_RAD_S) ==> {
                &&& r == Err::<(), KernelError>(KernelError::InvalidInput)
                &&& *final(self) == *old(self)
            },
    {
        if v < -VELOCITY_LIMIT_MICRO_RAD_S || v > VELOCITY_LIMIT_MICRO_RAD_S {
            return Err(KernelError::InvalidInput);
        }
        self.velocity = v;
        Ok(())
    }

    /// Advances this unit's state by one time step of `dt_ms` milliseconds
    /// with the given jitter sample.
    ///
    /// A non-positive time step is a caller error: it is rejected and the
    /// state is left exactly as it was. A positive time step never fails.
    pub fn update(&mut self, dt_ms: i64, jitter: i64) -> (r: Result<(), KernelError>)
        requires
            old(self).wf(),
            -JITTER_AMPLITUDE_NANO_RAD <= jitter <= JITTER_AMPLITUDE_NANO_RAD,
        ensures
            final(self).wf(),
            dt_ms <= 0 ==> r == Err::<(), KernelError>(KernelError::InvalidInput)
                && *final(self) == *old(self),
            dt_ms > 0 ==> r == Ok::<(), KernelError>(())
                && *final(self) == old(self).stepped(dt_ms as int, jitter as int),
    {
        if dt_ms <= 0 {
            return Err(KernelError::InvalidInput);
        }

        proof {
            let v = self.velocity as int;
            let d = dt_ms as int;
            assert(-1_000_000_000 * (i64::MAX as int) <= v * d <= 1_000_000_000 * (
            i64::MAX as int)) by (nonlinear_arith)
                requires
                    -1_000_000_000 <= v <= 1_000_000_000,
                    0 < d <= i64::MAX,
            ;
        }
        let raw: i128 = self.position as i128 + (self.velocity as i128) * (dt_ms as i128)
            + jitter as i128;
        self.position = if raw > POSITION_LIMIT_NANO_RAD as i128 {
            POSITION_LIMIT_NANO_RAD
        } else if raw < -POSITION_LIMIT_NANO_RAD as i128 {
            -POSITION_LIMIT_NANO_RAD
        } else {
            raw as i64
        };

        let speed: i64 = if self.velocity < 0 {
            -self.velocity
        } else {
            self.velocity
        };
        if speed > IDLE_VELOCITY_MICRO_RAD_S {
            let heat: i64 = ((speed as u64) / (HEAT_PER_VELOCITY_DIVISOR as u64)) as i64;
            let risen: i64 = self.temperature + heat;
            self.temperature = if risen > TEMP_CEIL_MILLI_C {
                TEMP_CEIL_MILLI_C
            } else {
                risen
            };
        } else if self.temperature >= AMBIENT_TEMP_MILLI_C {
            let gap: u64 = (self.temperature - AMBIENT_TEMP_MILLI_C) as u64;
            self.temperature = AMBIENT_TEMP_MILLI_C + ((99 * gap) / 100) as i64;
        } else {
            let gap: u64 = (AMBIENT_TEMP_MILLI_C - self.temperature) as u64;
            self.temperature = AMBIENT_TEMP_MILLI_C - ((99 * gap) / 100) as i64;
        }

        if self.temperature > OVERHEAT_TEMP_MILLI_C {
            self.status = UnitStatus::Overheat;
        } else if self.status == UnitStatus::Calibrating {
            self.status = UnitStatus::Nominal;
        }
        Ok(())
    }
}

/// One idle cooling step keeps the temperature inside the sensor band and
/// never widens the gap to ambient.
pub proof fn lemma_idle_cooling_contracts(t: int)
    requires
        0 <= t <= TEMP_CEIL_MILLI_C,
    ensures
        0 <= idle_cooled(t) <= TEMP_CEIL_MILLI_C,
        abs(idle_cooled(t) - AMBIENT_TEMP_MILLI_C) <= abs(t - AMBIENT_TEMP_MILLI_C),
{
    if t >= AMBIENT_TEMP_MILLI_C {
        let gap = t - AMBIENT_TEMP_MILLI_C;
        lemma_fundamental_div_mod(99 * gap, 100);
        lemma_mod_bound(99 * gap, 100);
    } else {
        let gap = AMBIENT_TEMP_MILLI_C - t;
        lemma_fundamental_div_mod(99 * gap, 100);
        lemma_mod_bound(99 * gap, 100);
    }
}

/// The temperature an idle unit reaches after `n` cooling steps.
pub open spec fn idle_cooled_n(t: int, n: nat) -> int
    decreases n,
{
    if n == 0 {
        t
    } else {
        idle_cooled(idle_cooled_n(t, (n - 1) as nat))
    }
}

/// Over any number of ticks an idle unit's temperature stays inside the
/// sensor band and never drifts away from ambient: repeated updates cannot
/// diverge.
pub proof fn lemma_idle_temperature_bounded(t: int, n: nat)
    requires
        0 <= t <= TEMP_CEIL_MILLI_C,
    ensures
        0 <= idle_cooled_n(t, n) <= TEMP_CEIL_MILLI_C,
        abs(idle_cooled_n(t, n) - AMBIENT_TEMP_MILLI_C) <= abs(t - AMBIENT_TEMP_MILLI_C),
    decreases n,
{
    if n > 0 {
        lemma_idle_temperature_bounded(t, (n - 1) as nat);
        lemma_idle_cooling_contracts(idle_cooled_n(t, (n - 1) as nat));
    }
}

} // verus!
