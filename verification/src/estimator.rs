//! The scaling stage of the amplitude estimator.
//!
//! A block's volume measure is the integer part of the square root of its
//! summed squared samples, scaled by a fixed sensitivity constant. The
//! square root runs on the capture thread next to the samples; this module
//! maps its non-negative integer result to the volume unit that the trigger
//! compares against the threshold.

use vstd::prelude::*;

verus! {

/// Sensitivity of the volume estimate: the factor applied to the integer
/// root of a block's energy. It sets how fast readings climb toward the
/// threshold and is the one tuning constant of the estimator.
pub const VOLUME_SCALE: i32 = 15;

/// The volume measure for a block whose energy has the integer root `rms`.
pub open spec fn spec_volume(rms: int) -> int {
    rms * VOLUME_SCALE
}

/// Scale the integer root of a block's energy to the volume unit.
pub fn estimate_volume(rms: i32) -> (v: i32)
    requires
        rms >= 0,
        spec_volume(rms as int) <= i32::MAX,
    ensures
        v == spec_volume(rms as int),
{
    rms * VOLUME_SCALE
}

/// Monotonicity of the volume estimate: a block with no smaller energy has
/// no smaller integer root, and so gets no smaller volume reading.
pub proof fn lemma_volume_monotonic(rms1: int, rms2: int)
    requires
        0 <= rms1 <= rms2,
    ensures
        spec_volume(rms1) <= spec_volume(rms2),
{
}

} // verus!
