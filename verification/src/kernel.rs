//! The control loop's kernel: system-wide status, the actuator registry, the
//! reactor, and the per-tick schedule. The kernel is the only component that
//! transitions the system status; status transitions are a pure function of
//! the current state and an event.

use vstd::prelude::*;

use crate::actuator::ServoUnit;
use crate::ballistics::BallisticComputer;
use crate::ballistics::Projectile;
use crate::ballistics::TargetingSolution;
use crate::ballistics::Vector3Milli;
use crate::ballistics::dist_sq;
use crate::ballistics::is_isqrt;
use crate::ballistics::solution_for_distance;
use crate::reactor::PlasmaReactor;
use crate::reactor::containment_ok;
use crate::reactor::scrammed;
use crate::registry::ActuatorRegistry;
use crate::registry::stepped_with_some_jitter;
use crate::KernelError;

verus! {

/// Fixed tick period, milliseconds. Exactly one update's worth of elapsed
/// time is applied per unit per tick, so missed wall-clock time never
/// compounds.
pub const TICK_DT_MS: i64 = 50;
/// The containment check runs every this-many ticks.
pub const CONTAINMENT_CHECK_PERIOD_TICKS: u64 = 20;

/// Process-wide status. Boot moves forward through ColdBoot, Diagnostic and
/// Operational; EmergencyPurge is terminal and reachable from anywhere.
#[derive(Clone, Copy, Debug, PartialEq, Eq, Structural)]
pub enum SystemStatus {
    ColdBoot,
    Diagnostic,
    Operational,
    CombatLock,
    EmergencyPurge,
}

/// The events the status machine consumes.
#[derive(Clone, Copy, Debug, PartialEq, Eq, Structural)]
pub enum KernelEvent {
    AttachComplete,
    DiagnosticsPassed,
    DiagnosticsFailed,
    EngageCombat,
    DisengageCombat,
    ContainmentFailed,
    HaltSignal,
}

/// The status transition function: boot events move forward from their own
/// phase and are ignored elsewhere; combat lock is entered and left only
/// from the operational pair; containment failure and an external halt force
/// EmergencyPurge from any state; a diagnostics failure ends the boot
/// attempt without a transition.
pub open spec fn spec_next_status(s: SystemStatus, e: KernelEvent) -> SystemStatus {
    match e {
        KernelEvent::ContainmentFailed => SystemStatus::EmergencyPurge,
        KernelEvent::HaltSignal => SystemStatus::EmergencyPurge,
        KernelEvent::AttachComplete => if s == SystemStatus::ColdBoot {
            SystemStatus::Diagnostic
        } else {
            s
        },
        KernelEvent::DiagnosticsPassed => if s == SystemStatus::Diagnostic {
            SystemStatus::Operational
        } else {
            s
        },
        KernelEvent::DiagnosticsFailed => s,
        KernelEvent::EngageCombat => if s == SystemStatus::Operational {
            SystemStatus::CombatLock
        } else {
            s
        },
        KernelEvent::DisengageCombat => if s == SystemStatus::CombatLock {
            SystemStatus::Operational
        } else {
            s
        },
    }
}

/// Executable status transition; exactly the specification function.
pub fn next_status(s: SystemStatus, e: KernelEvent) -> (r: SystemStatus)
    ensures
        r == spec_next_status(s, e),
{
    match e {
        KernelEvent::ContainmentFailed => SystemStatus::EmergencyPurge,
        KernelEvent::HaltSignal => SystemStatus::EmergencyPurge,
        KernelEvent::AttachComplete => if s == SystemStatus::ColdBoot {
            SystemStatus::Diagnostic
        } else {
            s
        },
        KernelEvent::DiagnosticsPassed => if s == SystemStatus::Diagnostic {
            SystemStatus::Operational
        } else {
            s
        },
        KernelEvent::DiagnosticsFailed => s,
        KernelEvent::EngageCombat => if s == SystemStatus::Operational {
            SystemStatus::CombatLock
        } else {
            s
        },
        KernelEvent::DisengageCombat => if s == SystemStatus::CombatLock {
            SystemStatus::Operational
        } else {
            s
        },
    }
}

/// EmergencyPurge is terminal: no event leaves it.
pub proof fn lemma_purge_is_terminal(e: KernelEvent)
    ensures
        spec_next_status(SystemStatus::EmergencyPurge, e) == SystemStatus::EmergencyPurge,
{
}

/// Identifiers in a boot manifest are pairwise distinct.
pub open spec fn distinct_ids(ids: Seq<String>) -> bool {
    forall|i: int, j: int| 0 <= i < j < ids.len() ==> (#[trigger] ids[i]@) != (#[trigger] ids[j]@)
}

/// Every diagnostic step reported success.
pub open spec fn all_passed(steps: Seq<bool>) -> bool {
    forall|i: int| 0 <= i < steps.len() ==> steps[i]
}

/// One unit's read-only telemetry line.
pub struct UnitReading {
    pub id: String,
    pub position: i64,
    pub temperature: i64,
    pub status: crate::actuator::UnitStatus,
}

/// The read-only snapshot the host may serialize and transmit on its own
/// schedule.
pub struct SystemSnapshot {
    pub status: SystemStatus,
    pub reactor_output_mw: u64,
    pub units: Vec<UnitReading>,
}

/// The whole kernel. `scram_count` records how often the reactor was ever
/// scrammed; well-formedness ties it to the status so that EmergencyPurge
/// scrams exactly once.
pub struct MechKernel {
    pub status: SystemStatus,
    pub servos: ActuatorRegistry,
    pub reactor: PlasmaReactor,
    pub ballistics: BallisticComputer,
    pub tick_count: u64,
    pub scram_count: u64,
}

impl MechKernel {
    /// Kernel well-formedness: the parts are well-formed, the scram counter
    /// says exactly whether the kernel has purged, a purged kernel holds a
    /// zeroed reactor, boot starts with an empty unsealed registry, and a
    /// running kernel's registry is sealed against late attach.
    pub open spec fn wf(self) -> bool {
        &&& self.servos.wf()
        &&& self.reactor.wf()
        &&& self.ballistics.wf()
        &&& (self.status == SystemStatus::EmergencyPurge <==> self.scram_count == 1)
        &&& self.scram_count <= 1
        &&& (self.status == SystemStatus::EmergencyPurge ==> self.reactor.current_output_mw == 0
            && self.reactor.field_integrity_milli == 0
            && self.reactor.coolant_pressure_milli_psi == 0)
        &&& (self.status == SystemStatus::ColdBoot ==> !self.servos.sealed
            && self.servos.units@.len() == 0)
        &&& ((self.status == SystemStatus::Operational || self.status == SystemStatus::CombatLock)
            ==> self.servos.sealed)
    }

    /// A cold kernel: nothing attached, fresh reactor, standard ballistics.
    pub fn new() -> (k: MechKernel)
        ensures
            k.wf(),
            k.status == SystemStatus::ColdBoot,
            k.servos.units@.len() == 0,
            !k.reactor.is_unstable,
            k.reactor.current_output_mw == 0,
            k.reactor.field_integrity_milli == crate::reactor::FULL_INTEGRITY_MILLI,
            k.tick_count == 0,
            k.scram_count == 0,
    {
        MechKernel {
            status: SystemStatus::ColdBoot,
            servos: ActuatorRegistry::new(),
            reactor: PlasmaReactor::new(),
            ballistics: BallisticComputer::new(),
            tick_count: 0,
            scram_count: 0,
        }
    }

    /// Boot step one: attaches every configured unit and moves to
    /// Diagnostic. Rejected whole when not in ColdBoot or when the manifest
    /// repeats an identifier.
    pub fn initialize_hardware(&mut self, ids: &Vec<String>) -> (r: Result<(), KernelError>)
        requires
            old(self).wf(),
        ensures
            final(self).wf(),
            !(old(self).status == SystemStatus::ColdBoot && distinct_ids(ids@)) ==> {
                &&& r == Err::<(), KernelError>(KernelError::InvalidInput)
                &&& *final(self) == *old(self)
            },
            (old(self).status == SystemStatus::ColdBoot && distinct_ids(ids@)) ==> {
                &&& r == Ok::<(), KernelError>(())
                &&& final(self).status == spec_next_status(
                    SystemStatus::ColdBoot,
                    KernelEvent::AttachComplete,
                )
                &&& final(self).servos.units@.len() == ids@.len()
                &&& (forall|i: int|
                    0 <= i < ids@.len() ==> (#[trigger] final(self).servos.units@[i].id@)
                        == ids@[i]@)
                &&& (forall|i: int|
                    0 <= i < ids@.len() ==> {
                        let u = #[trigger] final(self).servos.units@[i];
                        &&& u.position == 0
                        &&& u.velocity == 0
                        &&& u.temperature == crate::actuator::AMBIENT_TEMP_MILLI_C
                        &&& u.status == crate::actuator::UnitStatus::Calibrating
                    })
                &&& final(self).servos.sealed == old(self).servos.sealed
                &&& final(self).reactor == old(self).reactor
                &&& final(self).ballistics == old(self).ballistics
                &&& final(self).tick_count == old(self).tick_count
                &&& final(self).scram_count == old(self).scram_count
            },
    {
        match self.status {
            SystemStatus::ColdBoot => (),
            _ => { return Err(KernelError::InvalidInput); },
        }
        let n = ids.len();
        let mut i: usize = 0;
        while i < n
            invariant
                i <= n,
                n == ids@.len(),
                old(self).wf(),
                *self == *old(self),
                forall|a: int, b: int|
                    0 <= a < b < i ==> (#[trigger] ids@[a]@) != (#[trigger] ids@[b]@),
            decreases n - i,
        {
            let mut j: usize = 0;
            while j < i
                invariant
                    j <= i < n,
                    n == ids@.len(),
                    old(self).wf(),
                    *self == *old(self),
                    forall|b: int| 0 <= b < j ==> (#[trigger] ids@[b]@) != ids@[i as int]@,
                decreases i - j,
            {
                if ids[j] == ids[i] {
                    return Err(KernelError::InvalidInput);
                }
                j += 1;
            }
            i += 1;
        }
        let mut k: usize = 0;
        while k < n
            invariant
                k <= n,
                n == ids@.len(),
                distinct_ids(ids@),
                old(self).wf(),
                old(self).status == SystemStatus::ColdBoot,
                self.servos.wf(),
                !self.servos.sealed,
                self.servos.units@.len() == k,
                forall|a: int|
                    0 <= a < k ==> (#[trigger] self.servos.units@[a].id@) == ids@[a]@,
                forall|a: int|
                    0 <= a < k ==> {
                        let u = #[trigger] self.servos.units@[a];
                        &&& u.position == 0
                        &&& u.velocity == 0
                        &&& u.temperature == crate::actuator::AMBIENT_TEMP_MILLI_C
                        &&& u.status == crate::actuator::UnitStatus::Calibrating
                    },
                self.status == old(self).status,
                self.reactor == old(self).reactor,
                self.ballistics == old(self).ballistics,
                self.tick_count == old(self).tick_count,
                self.scram_count == old(self).scram_count,
            decreases n - k,
        {
            proof {
                assert(!self.servos.has_id(ids@[k as int]@));
            }
            let outcome = self.servos.attach(ids[k].as_str());
            proof {
                assert(outcome == Ok::<(), KernelError>(()));
            }
            k += 1;
        }
        self.status = SystemStatus::Diagnostic;
        Ok(())
    }

    /// Boot step two: consumes the diagnostic step reports. All green moves
    /// to Operational and seals the registry; any failure ends the boot
    /// attempt with `DiagnosticFailure` and must keep the tick scheduler
    /// from starting. Rejected when not in Diagnostic.
    pub fn run_diagnostics(&mut self, step_results: &Vec<bool>) -> (r: Result<(), KernelError>)
        requires
            old(self).wf(),
        ensures
            final(self).wf(),
            old(self).status != SystemStatus::Diagnostic ==> {
                &&& r == Err::<(), KernelError>(KernelError::InvalidInput)
                &&& *final(self) == *old(self)
            },
            old(self).status == SystemStatus::Diagnostic && !all_passed(step_results@) ==> {
                &&& r == Err::<(), KernelError>(KernelError::DiagnosticFailure)
                &&& *final(self) == *old(self)
            },
            old(self).status == SystemStatus::Diagnostic && all_passed(step_results@) ==> {
                &&& r == Ok::<(), KernelError>(())
                &&& final(self).status == spec_next_status(
                    SystemStatus::Diagnostic,
                    KernelEvent::DiagnosticsPassed,
                )
                &&& final(self).servos.sealed
                &&& final(self).servos.units@ == old(self).servos.units@
                &&& final(self).reactor == old(self).reactor
                &&& final(self).ballistics == old(self).ballistics
                &&& final(self).tick_count == old(self).tick_count
                &&& final(self).scram_count == old(self).scram_count
            },
    {
        match self.status {
            SystemStatus::Diagnostic => (),
            _ => { return Err(KernelError::InvalidInput); },
        }
        let n = step_results.len();
        let mut i: usize = 0;
        while i < n
            invariant
                i <= n,
                n == step_results@.len(),
                old(self).wf(),
                old(self).status == SystemStatus::Diagnostic,
                *self == *old(self),
                forall|a: int| 0 <= a < i ==> step_results@[a],
            decreases n - i,
        {
            if !step_results[i] {
                return Err(KernelError::DiagnosticFailure);
            }
            i += 1;
        }
        self.servos.seal();
        self.status = SystemStatus::Operational;
        Ok(())
    }

    /// One tick of scheduled work. Returns whether the loop may keep
    /// ticking. The tick counter saturates at the machine word, far beyond
    /// any physical mission length.
    ///
    /// In Operational or CombatLock: every unit advances by exactly one
    /// fixed-period update; every Nth tick the containment check runs on the
    /// given timestamp, and a failure transitions to EmergencyPurge and
    /// scrams exactly once. In any other state — EmergencyPurge included —
    /// the tick does nothing and reports that the loop is not running, so a
    /// purged kernel can never scram again.
    pub fn tick(&mut self, timestamp_s: u64) -> (go: bool)
        requires
            old(self).wf(),
        ensures
            final(self).wf(),
            !(old(self).status == SystemStatus::Operational || old(self).status
                == SystemStatus::CombatLock) ==> *final(self) == *old(self) && !go,
            (old(self).status == SystemStatus::Operational || old(self).status
                == SystemStatus::CombatLock) ==> {
                &&& final(self).tick_count == old(self).tick_count.saturating_add(1)
                &&& stepped_with_some_jitter(
                    old(self).servos.units@,
                    final(self).servos.units@,
                    TICK_DT_MS as int,
                )
                &&& final(self).servos.sealed == old(self).servos.sealed
                &&& final(self).ballistics == old(self).ballistics
                &&& {
                    let due = old(self).tick_count.saturating_add(1)
                        % CONTAINMENT_CHECK_PERIOD_TICKS == 0;
                    let ok = containment_ok(
                        old(self).reactor.field_integrity_milli as int,
                        timestamp_s as int,
                    );
                    if due && !ok {
                        &&& final(self).status == spec_next_status(
                            old(self).status,
                            KernelEvent::ContainmentFailed,
                        )
                        &&& final(self).reactor == scrammed(old(self).reactor)
                        &&& final(self).scram_count == old(self).scram_count + 1
                        &&& !go
                    } else {
                        &&& final(self).status == old(self).status
                        &&& final(self).reactor == old(self).reactor
                        &&& final(self).scram_count == old(self).scram_count
                        &&& go
                    }
                }
            },
    {
        match self.status {
            SystemStatus::Operational => (),
            SystemStatus::CombatLock => (),
            _ => { return false; },
        }
        self.tick_count = self.tick_count.saturating_add(1);
        let sweep = self.servos.for_each_unit(TICK_DT_MS);
        proof {
            assert(sweep == Ok::<(), KernelError>(()));
        }
        if self.tick_count % CONTAINMENT_CHECK_PERIOD_TICKS == 0 {
            if !self.reactor.check_containment(timestamp_s) {
                self.status = SystemStatus::EmergencyPurge;
                self.reactor.scram();
                self.scram_count = self.scram_count + 1;
                return false;
            }
        }
        true
    }

    /// External halt signal: from any state, purge and scram — exactly once.
    /// A kernel that has already purged is left untouched.
    pub fn halt(&mut self)
        requires
            old(self).wf(),
        ensures
            final(self).wf(),
            old(self).status == SystemStatus::EmergencyPurge ==> *final(self) == *old(self),
            old(self).status != SystemStatus::EmergencyPurge ==> {
                &&& final(self).status == spec_next_status(
                    old(self).status,
                    KernelEvent::HaltSignal,
                )
                &&& final(self).reactor == scrammed(old(self).reactor)
                &&& final(self).scram_count == old(self).scram_count + 1
                &&& final(self).servos == old(self).servos
                &&& final(self).ballistics == old(self).ballistics
                &&& final(self).tick_count == old(self).tick_count
            },
    {
        match self.status {
            SystemStatus::EmergencyPurge => (),
            _ => {
                self.status = SystemStatus::EmergencyPurge;
                self.reactor.scram();
                self.scram_count = self.scram_count + 1;
            },
        }
    }

    /// Combat lock is entered from Operational and left back to Operational,
    /// driven by the external fire-control signal; every other state ignores
    /// the signal.
    pub fn set_combat_lock(&mut self, engage: bool) -> (changed: bool)
        requires
            old(self).wf(),
        ensures
            final(self).wf(),
            final(self).status == spec_next_status(
                old(self).status,
                if engage {
                    KernelEvent::EngageCombat
                } else {
                    KernelEvent::DisengageCombat
                },
            ),
            changed == (final(self).status != old(self).status),
            final(self).servos == old(self).servos,
            final(self).reactor == old(self).reactor,
            final(self).ballistics == old(self).ballistics,
            final(self).tick_count == old(self).tick_count,
            final(self).scram_count == old(self).scram_count,
    {
        if engage {
            match self.status {
                SystemStatus::Operational => {
                    self.status = SystemStatus::CombatLock;
                    true
                },
                _ => false,
            }
        } else {
            match self.status {
                SystemStatus::CombatLock => {
                    self.status = SystemStatus::Operational;
                    true
                },
                _ => false,
            }
        }
    }

    /// On-demand fire-control service: the pure solver over this kernel's
    /// firing computer. Available while the loop runs.
    pub fn fire_control(
        &self,
        origin: Vector3Milli,
        target: Vector3Milli,
        ammo: Projectile,
    ) -> (r: Option<TargetingSolution>)
        requires
            self.wf(),
            self.status == SystemStatus::Operational || self.status == SystemStatus::CombatLock,
            ammo.wf(),
            origin.in_solve_band(),
            target.in_solve_band(),
        ensures
            forall|d: int|
                is_isqrt(dist_sq(origin, target), d) ==> r == solution_for_distance(
                    self.ballistics,
                    ammo,
                    d,
                ),
    {
        self.ballistics.calculate_solution(origin, target, ammo)
    }

    /// The read-only status and telemetry snapshot: system status, reactor
    /// output, and each unit's position and temperature.
    pub fn snapshot(&self) -> (s: SystemSnapshot)
        ensures
            s.status == self.status,
            s.reactor_output_mw == self.reactor.current_output_mw,
            s.units@.len() == self.servos.units@.len(),
            forall|i: int|
                0 <= i < self.servos.units@.len() ==> {
                    let u = #[trigger] s.units@[i];
                    &&& u.id@ == self.servos.units@[i].id@
                    &&& u.position == self.servos.units@[i].position
                    &&& u.temperature == self.servos.units@[i].temperature
                    &&& u.status == self.servos.units@[i].status
                },
    {
        let mut units: Vec<UnitReading> = Vec::new();
        let n = self.servos.units.len();
        let mut i: usize = 0;
        while i < n
            invariant
                i <= n,
                n == self.servos.units@.len(),
                units@.len() == i,
                forall|a: int|
                    0 <= a < i ==> {
                        let u = #[trigger] units@[a];
                        &&& u.id@ == self.servos.units@[a].id@
                        &&& u.position == self.servos.units@[a].position
                        &&& u.temperature == self.servos.units@[a].temperature
                        &&& u.status == self.servos.units@[a].status
                    },
            decreases n - i,
        {
            let unit: &ServoUnit = &self.servos.units[i];
            units.push(
                UnitReading {
                    id: unit.id.clone(),
                    position: unit.position,
                    temperature: unit.temperature,
                    status: unit.status,
                },
            );
            i += 1;
        }
        SystemSnapshot {
            status: self.status,
            reactor_output_mw: self.reactor.current_output_mw,
            units,
        }
    }
}

} // verus!
