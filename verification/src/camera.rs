//! Camera input handling.
//!
//! The camera's pose bookkeeping is exact: angles are held in hundredths of
//! a degree, so a mouse delta times an integer sensitivity updates yaw and
//! pitch without rounding.  Pitch is clamped to just short of straight up
//! and straight down.  Deriving a view matrix from the pose is
//! trigonometric and lives outside the library.

use vstd::prelude::*;

verus! {

/// Lowest pitch, in hundredths of a degree: one degree short of straight
/// down.
pub const PITCH_MIN_CDEG: i64 = -8900;

/// Highest pitch, in hundredths of a degree: one degree short of straight
/// up.
pub const PITCH_MAX_CDEG: i64 = 8900;

/// A movement intent from the keyboard, relative to the view direction.
#[derive(Clone, Copy, Debug, PartialEq, Eq, Structural)]
pub enum CameraMovement {
    /// Along the view direction.
    Forward,
    /// Against the view direction.
    Backward,
    /// Against the view's right vector.
    Left,
    /// Along the view's right vector.
    Right,
    /// Along the world up axis.
    Up,
    /// Against the world up axis.
    Down,
}

/// `x` clamped into `[lo, hi]`.
pub open spec fn spec_clamp_i64(x: int, lo: int, hi: int) -> int {
    if x < lo {
        lo
    } else if x > hi {
        hi
    } else {
        x
    }
}

/// The camera's orientation in hundredths of a degree.  Yaw accumulates
/// freely; pitch stays within the clamp range.
#[derive(Clone, Copy, Debug, PartialEq, Eq, Structural)]
pub struct CameraAngles {
    /// Yaw in hundredths of a degree.
    pub yaw_cdeg: i64,
    /// Pitch in hundredths of a degree.
    pub pitch_cdeg: i64,
}

impl CameraAngles {
    /// Pitch lies within the clamp range.
    pub open spec fn wf(self) -> bool {
        PITCH_MIN_CDEG <= self.pitch_cdeg <= PITCH_MAX_CDEG
    }

    /// Starts the camera at the given orientation.
    pub fn new(yaw_cdeg: i64, pitch_cdeg: i64) -> (r: CameraAngles)
        requires
            PITCH_MIN_CDEG <= pitch_cdeg <= PITCH_MAX_CDEG,
        ensures
            r.yaw_cdeg == yaw_cdeg,
            r.pitch_cdeg == pitch_cdeg,
            r.wf(),
    {
        CameraAngles { yaw_cdeg, pitch_cdeg }
    }

    /// Applies a mouse delta: yaw grows by `dx` steps of the sensitivity,
    /// pitch by `dy` steps, and pitch is clamped into its range.
    pub fn process_mouse(&mut self, dx: i64, dy: i64, sensitivity_cdeg: i64)
        requires
            0 <= sensitivity_cdeg,
            i64::MIN <= dx * sensitivity_cdeg <= i64::MAX,
            i64::MIN <= dy * sensitivity_cdeg <= i64::MAX,
            i64::MIN <= old(self).yaw_cdeg + dx * sensitivity_cdeg <= i64::MAX,
            i64::MIN <= old(self).pitch_cdeg + dy * sensitivity_cdeg <= i64::MAX,
        ensures
            final(self).yaw_cdeg == old(self).yaw_cdeg + dx * sensitivity_cdeg,
            final(self).pitch_cdeg == spec_clamp_i64(
                old(self).pitch_cdeg + dy * sensitivity_cdeg,
                PITCH_MIN_CDEG as int,
                PITCH_MAX_CDEG as int,
            ),
            final(self).wf(),
    {
        self.yaw_cdeg = self.yaw_cdeg + dx * sensitivity_cdeg;
        let raw_pitch = self.pitch_cdeg + dy * sensitivity_cdeg;
        self.pitch_cdeg = if raw_pitch < PITCH_MIN_CDEG {
            PITCH_MIN_CDEG
        } else if raw_pitch > PITCH_MAX_CDEG {
            PITCH_MAX_CDEG
        } else {
            raw_pitch
        };
    }
}

/// Pitch never leaves the clamp range, whatever deltas arrive: the update
/// maps a well-formed orientation to a well-formed one.
pub proof fn lemma_pitch_always_clamped(pitch: int, delta: int)
    ensures
        PITCH_MIN_CDEG <= spec_clamp_i64(
            pitch + delta,
            PITCH_MIN_CDEG as int,
            PITCH_MAX_CDEG as int,
        ) <= PITCH_MAX_CDEG,
{
}

} // verus!
