//! The plasma reactor: a monotonic output counter, coolant pressure, magnetic
//! containment integrity, and a stability flag that locks out fuel injection.
//!
//! Quantities are scaled integers: output in megawatts, pressure in
//! milli-psi, field integrity in thousandths of full integrity.

use vstd::prelude::*;

use vstd::arithmetic::div_mod::lemma_div_is_ordered;

use crate::KernelError;

verus! {

/// Energy numerator per milligram of fuel.
pub const CONVERSION_CONSTANT: u64 = 299_792_458;
/// Reaction efficiency, as a fraction over one hundred (98%).
pub const EFFICIENCY_PERCENT: u64 = 98;
/// Coolant pressure rises by this much per injection (5 psi).
pub const PRESSURE_STEP_MILLI_PSI: u64 = 5_000;
/// Full magnetic field integrity (1.0).
pub const FULL_INTEGRITY_MILLI: u64 = 1_000;
/// Containment holds while integrity minus fluctuation stays at or above
/// this threshold (0.4).
pub const CONTAINMENT_THRESHOLD_MILLI: u64 = 400;
/// Largest fuel amount one injection accepts; keeps the released energy
/// within the machine word.
pub const INJECTION_LIMIT_MG: u64 = 60_000_000_000;

/// Reactor state. Output is add-only except on an emergency shutdown, and an
/// unstable core rejects fuel until an external reset (out of scope here).
pub struct PlasmaReactor {
    pub core_id: String,
    /// Accumulated output counter, megawatts. Written only through the two
    /// mutating operations and read through shared references, so in this
    /// ownership model no reader can observe a torn value.
    pub current_output_mw: u64,
    /// Coolant pressure in milli-psi.
    pub coolant_pressure_milli_psi: u64,
    /// Magnetic field integrity in thousandths, between zero and full.
    pub field_integrity_milli: u64,
    pub is_unstable: bool,
}

/// Energy released by `amount_mg` milligrams of fuel: amount times the
/// conversion constant, scaled by the reaction efficiency.
pub open spec fn energy_released(amount_mg: int) -> int {
    amount_mg * CONVERSION_CONSTANT * EFFICIENCY_PERCENT / 100
}

/// The time-varying containment fluctuation, in thousandths: ten per second
/// of the timestamp's last digit, so always inside [0, 100).
pub open spec fn fluctuation_milli(timestamp_s: int) -> int {
    (timestamp_s % 10) * 10
}

/// Containment holds when integrity minus the fluctuation at this timestamp
/// is at or above the threshold.
pub open spec fn containment_ok(integrity_milli: int, timestamp_s: int) -> bool {
    integrity_milli - fluctuation_milli(timestamp_s) >= CONTAINMENT_THRESHOLD_MILLI
}

/// The state an emergency shutdown leaves behind: output, integrity and
/// pressure all zero, and the core marked unstable, so fuel injection stays
/// locked out until an external reset; only the identity survives.
pub open spec fn scrammed(r: PlasmaReactor) -> PlasmaReactor {
    PlasmaReactor {
        current_output_mw: 0,
        coolant_pressure_milli_psi: 0,
        field_integrity_milli: 0,
        is_unstable: true,
        ..r
    }
}

impl PlasmaReactor {
    /// Integrity never exceeds full.
    pub open spec fn wf(self) -> bool {
        self.field_integrity_milli <= FULL_INTEGRITY_MILLI
    }

    /// A fresh core: full integrity, stable, zero output accumulated, with
    /// the boot-time coolant pressure reading.
    pub fn new() -> (r: PlasmaReactor)
        ensures
            r.wf(),
            r.core_id@ == "RX-78-MKII"@,
            r.current_output_mw == 0,
            r.coolant_pressure_milli_psi == 2_400_000,
            r.field_integrity_milli == FULL_INTEGRITY_MILLI,
            !r.is_unstable,
    {
        PlasmaReactor {
            core_id: "RX-78-MKII".to_owned(),
            current_output_mw: 0,
            coolant_pressure_milli_psi: 2_400_000,
            field_integrity_milli: FULL_INTEGRITY_MILLI,
            is_unstable: false,
        }
    }

    /// Injects `amount_mg` milligrams of fuel.
    ///
    /// An unstable core refuses with `SafetyLockout` and mutates nothing; a
    /// zero amount is rejected whole with `InvalidInput`. Otherwise the
    /// released energy is returned, added to the output counter (which
    /// saturates at the machine word), and the coolant pressure rises by one
    /// step.
    pub fn inject_deuterium(&mut self, amount_mg: u64) -> (r: Result<u64, KernelError>)
        requires
            old(self).wf(),
            amount_mg <= INJECTION_LIMIT_MG,
        ensures
            final(self).wf(),
            old(self).is_unstable ==> r == Err::<u64, KernelError>(KernelError::SafetyLockout)
                && *final(self) == *old(self),
            !old(self).is_unstable && amount_mg == 0 ==> r == Err::<u64, KernelError>(
                KernelError::InvalidInput,
            ) && *final(self) == *old(self),
            !old(self).is_unstable && amount_mg > 0 ==> {
                &&& 0 < energy_released(amount_mg as int) <= u64::MAX
                &&& r == Ok::<u64, KernelError>(energy_released(amount_mg as int) as u64)
                &&& final(self).current_output_mw == old(self).current_output_mw.saturating_add(
                    energy_released(amount_mg as int) as u64,
                )
                &&& final(self).coolant_pressure_milli_psi == old(
                    self,
                ).coolant_pressure_milli_psi.saturating_add(PRESSURE_STEP_MILLI_PSI)
                &&& final(self).core_id == old(self).core_id
                &&& final(self).field_integrity_milli == old(self).field_integrity_milli
                &&& final(self).is_unstable == old(self).is_unstable
            },
    {
        if self.is_unstable {
            return Err(KernelError::SafetyLockout);
        }
        if amount_mg == 0 {
            return Err(KernelError::InvalidInput);
        }
        proof {
            let a = amount_mg as int;
            assert(CONVERSION_CONSTANT * EFFICIENCY_PERCENT <= a * CONVERSION_CONSTANT
                * EFFICIENCY_PERCENT <= INJECTION_LIMIT_MG * CONVERSION_CONSTANT
                * EFFICIENCY_PERCENT) by (nonlinear_arith)
                requires
                    1 <= a <= INJECTION_LIMIT_MG,
            ;
            lemma_div_is_ordered(
                CONVERSION_CONSTANT * EFFICIENCY_PERCENT,
                a * CONVERSION_CONSTANT * EFFICIENCY_PERCENT,
                100,
            );
            lemma_div_is_ordered(
                a * CONVERSION_CONSTANT * EFFICIENCY_PERCENT,
                INJECTION_LIMIT_MG * CONVERSION_CONSTANT * EFFICIENCY_PERCENT,
                100,
            );
        }
        let energy_wide: u128 = amount_mg as u128 * CONVERSION_CONSTANT as u128
            * EFFICIENCY_PERCENT as u128 / 100;
        let energy: u64 = energy_wide as u64;
        self.current_output_mw = self.current_output_mw.saturating_add(energy);
        self.coolant_pressure_milli_psi = self.coolant_pressure_milli_psi.saturating_add(
            PRESSURE_STEP_MILLI_PSI,
        );
        Ok(energy)
    }

    /// Emergency shutdown: unconditionally and idempotently zeroes output,
    /// field integrity and coolant pressure, and marks the core unstable.
    /// Irreversible within this component: the safety lockout then refuses
    /// fuel until an explicit external reset, which is out of scope here.
    pub fn scram(&mut self)
        ensures
            final(self).wf(),
            *final(self) == scrammed(*old(self)),
    {
        self.current_output_mw = 0;
        self.field_integrity_milli = 0;
        self.coolant_pressure_milli_psi = 0;
        self.is_unstable = true;
    }

    /// Pure containment health check for the given timestamp (seconds): no
    /// state is read beyond the field integrity, nothing is mutated, and the
    /// result is false exactly when integrity minus the fluctuation falls
    /// below the threshold. Escalation is the caller's decision.
    pub fn check_containment(&self, timestamp_s: u64) -> (r: bool)
        ensures
            r == containment_ok(self.field_integrity_milli as int, timestamp_s as int),
            !r <==> self.field_integrity_milli - fluctuation_milli(timestamp_s as int)
                < CONTAINMENT_THRESHOLD_MILLI,
    {
        let fluct: u64 = (timestamp_s % 10) * 10;
        self.field_integrity_milli >= CONTAINMENT_THRESHOLD_MILLI + fluct
    }
}

/// An emergency shutdown is idempotent: shutting an already scrammed core
/// down again changes nothing, so two scrams leave exactly the state one
/// leaves.
pub proof fn lemma_scram_idempotent(r: PlasmaReactor)
    ensures
        scrammed(scrammed(r)) == scrammed(r),
{
}

} // verus!
