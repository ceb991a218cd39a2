//! Real-time control kernel for a multi-actuator mechanized platform.
//!
//! The crate models three tightly coupled subsystems that share one execution
//! cadence and safety model: the per-tick servo-actuator update protocol, the
//! plasma-reactor power/containment state machine with its safety lockout, and
//! the pure ballistic solver that turns target geometry into an aim command.
//! All physical quantities are carried as scaled integers (the unit of each
//! field is part of its name or its documentation), so every rule and every
//! state transition is stated and proved exactly.

use vstd::prelude::*;

pub mod actuator;
pub mod ballistics;
pub mod kernel;
pub mod noise;
pub mod reactor;
pub mod registry;

verus! {

/// Failure kinds shared by the kernel's components.
///
/// `InvalidInput` rejects an out-of-band argument at the call boundary with no
/// partial mutation; `SafetyLockout` is the reactor refusing fuel while
/// unstable; `DiagnosticFailure` ends the current boot attempt.
#[derive(Clone, Copy, Debug, PartialEq, Eq, Structural)]
pub enum KernelError {
    InvalidInput,
    SafetyLockout,
    DiagnosticFailure,
}

} // verus!
