//! The one nondeterministic input of the kernel: the bounded mechanical
//! jitter that each servo update adds to its position.

use vstd::prelude::*;

use rand::RngExt;

use crate::actuator::JITTER_AMPLITUDE_NANO_RAD;

verus! {

/// Draws one jitter sample in nanoradians.
///
/// Relies on rand's `RngExt::random_range`: a sample from `low..high` lies in
/// that half-open range, and the range here is never empty. Nothing more is
/// assumed of the draw: callers hold for every value in the band.
#[verifier::external_body]
pub(crate) fn sample_jitter() -> (r: i64)
    ensures
        -JITTER_AMPLITUDE_NANO_RAD <= r < JITTER_AMPLITUDE_NANO_RAD,
{
    rand::rng().random_range(-JITTER_AMPLITUDE_NANO_RAD..JITTER_AMPLITUDE_NANO_RAD)
}

} // verus!
