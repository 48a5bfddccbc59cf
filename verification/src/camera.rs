//! The fixed numbers of the first-person camera, and the rule that keeps it
//! from looking straight up or down.

use vstd::prelude::*;
use crate::single::{single_of, single_of_is_bounded, Single};

verus! {

/// The steepest pitch, up or down, in whole degrees.
pub const PITCH_LIMIT: u32 = 89;

/// The speed of the camera, in steps per second.
pub const SPEED: u32 = 10;

/// How far the camera turns for a hundred counts of pointer motion, in degrees.
pub const SENSITIVITY_PER_HUNDRED: u32 = 3;

/// The steepest upward pitch: 89 degrees.
pub open spec fn max_pitch() -> Single {
    Single { bits: single_of(PITCH_LIMIT as nat) as u32 }
}

/// The steepest downward pitch: -89 degrees.
pub open spec fn min_pitch() -> Single {
    max_pitch().negation()
}

/// A pitch brought into the range from -89 to 89 degrees: one above the range
/// becomes 89, one below becomes -89, and any other is left as it is. A pitch
/// that is not a number is neither above nor below, and stays.
pub open spec fn clamped_pitch(pitch: Single) -> Single {
    if max_pitch().less_than(pitch) {
        max_pitch()
    } else if pitch.less_than(min_pitch()) {
        min_pitch()
    } else {
        pitch
    }
}

/// Brings a pitch, in degrees, into the range from -89 to 89. Whatever the
/// magnitude of a pitch that is a number, the result is a number in the range.
pub fn clamp_pitch(pitch: Single) -> (clamped: Single)
    ensures
        clamped == clamped_pitch(pitch),
        !pitch.is_nan() ==> !clamped.is_nan() && min_pitch().ordinal() <= clamped.ordinal()
            <= max_pitch().ordinal(),
        pitch.is_nan() ==> clamped == pitch,
{
    proof {
        single_of_is_bounded(PITCH_LIMIT);
    }
    let highest = Single::from_u32(PITCH_LIMIT);
    let lowest = highest.negated();
    if pitch.gt(highest) {
        highest
    } else if pitch.lt(lowest) {
        lowest
    } else {
        pitch
    }
}

/// Clamping a pitch that is in the range, or one that was clamped before,
/// changes nothing.
pub proof fn clamping_is_idempotent(pitch: Single)
    ensures
        clamped_pitch(clamped_pitch(pitch)) == clamped_pitch(pitch),
{
    single_of_is_bounded(PITCH_LIMIT);
}

} // verus!
