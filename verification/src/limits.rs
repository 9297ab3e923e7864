//! Thresholds and limits of the camera controller.
//!
//! Each is applied to a binary32 word and stated of the number that the
//! word encodes.

use crate::binary32::{
    abs, is_finite, is_nan, le, lemma_size_order, less, lt, magnitude, INFINITY, SIGN, ZERO,
};
use vstd::prelude::*;

verus! {

/// The word of one.
pub const ONE: u32 = 0x3f80_0000;

/// Stick deflections of a smaller magnitude count as none: 0.12.
pub const DEADZONE: u32 = 0x3df5_c28f;

/// The largest pitch, in radians: 1.54, a little under a right angle.
pub const MAX_PITCH: u32 = 0x3fc5_1eb8;

/// The smallest pitch: `-MAX_PITCH`.
pub const MIN_PITCH: u32 = 0xbfc5_1eb8;

/// The frame time taken when the measured one is unusable: a sixtieth of a
/// second.
pub const DEFAULT_FRAME_TIME: u32 = 0x3c88_8889;

/// The longest frame time that is integrated: 0.05 seconds.
pub const MAX_FRAME_TIME: u32 = 0x3d4c_cccd;

/// The squared length under which a vector has no direction: a millionth.
pub const DEGENERATE: u32 = 0x3586_37bd;

/// A stick deflection with the dead zone applied: none where its magnitude
/// is under `DEADZONE`, itself otherwise.
pub open spec fn deadzoned(axis: u32) -> u32 {
    if lt(magnitude(axis), DEADZONE) {
        ZERO
    } else {
        axis
    }
}

/// Applies the dead zone to one stick axis.
pub fn deadzone(axis: u32) -> (r: u32)
    ensures
        r == deadzoned(axis),
{
    if less(abs(axis), DEADZONE) {
        ZERO
    } else {
        axis
    }
}

/// A stick deflection under the dead zone contributes nothing, and any
/// other contributes itself: in full at the threshold already.
pub proof fn lemma_deadzone_threshold(axis: u32)
    ensures
        lt(magnitude(axis), DEADZONE) ==> deadzoned(axis) == ZERO,
        le(DEADZONE, magnitude(axis)) ==> deadzoned(axis) == axis,
        deadzoned(DEADZONE) == DEADZONE,
{
    lemma_size_order(DEADZONE, axis);
}

/// The frame time that is integrated for a measured one: the default
/// where the measured one is not finite or not positive, the bound where
/// it is above, itself otherwise.
pub open spec fn bounded_frame_time(dt: u32) -> u32 {
    if !is_finite(dt) || !lt(ZERO, dt) {
        DEFAULT_FRAME_TIME
    } else if lt(MAX_FRAME_TIME, dt) {
        MAX_FRAME_TIME
    } else {
        dt
    }
}

/// Bounds a measured frame time. What comes out is a positive number of
/// at most `MAX_FRAME_TIME`.
pub fn frame_time(dt: u32) -> (r: u32)
    ensures
        r == bounded_frame_time(dt),
        lt(ZERO, r) && le(r, MAX_FRAME_TIME),
{
    proof {
        lemma_size_order(MAX_FRAME_TIME, dt);
        lemma_size_order(DEFAULT_FRAME_TIME, MAX_FRAME_TIME);
        lemma_size_order(ZERO, DEFAULT_FRAME_TIME);
        lemma_size_order(ZERO, MAX_FRAME_TIME);
    }
    if abs(dt) >= INFINITY || !less(ZERO, dt) {
        DEFAULT_FRAME_TIME
    } else if less(MAX_FRAME_TIME, dt) {
        MAX_FRAME_TIME
    } else {
        dt
    }
}

/// A pitch held within the limit: `MAX_PITCH` where it is above,
/// `MIN_PITCH` where it is below, itself otherwise.
pub open spec fn clamped_pitch(pitch: u32) -> u32 {
    if lt(MAX_PITCH, pitch) {
        MAX_PITCH
    } else if lt(pitch, MIN_PITCH) {
        MIN_PITCH
    } else {
        pitch
    }
}

/// Whether a pitch is within the limit: neither above `MAX_PITCH` nor below
/// `MIN_PITCH`.
pub open spec fn pitch_within_limit(pitch: u32) -> bool {
    !lt(MAX_PITCH, pitch) && !lt(pitch, MIN_PITCH)
}

/// Whatever pitch is handed in, what comes out of the clamp is within the
/// limit, and the clamp leaves it alone from then on.
pub proof fn lemma_pitch_stays_within_limit(pitch: u32)
    ensures
        pitch_within_limit(clamped_pitch(pitch)),
        pitch_within_limit(pitch) ==> clamped_pitch(pitch) == pitch,
        clamped_pitch(clamped_pitch(pitch)) == clamped_pitch(pitch),
{
    lemma_size_order(MAX_PITCH, MIN_PITCH);
}

/// Holds a pitch within the limit. A pitch that is a number comes out
/// between `MIN_PITCH` and `MAX_PITCH`; one that is none comes out as it
/// is.
pub fn clamp_pitch(pitch: u32) -> (r: u32)
    ensures
        r == clamped_pitch(pitch),
        pitch_within_limit(r),
        !is_nan(pitch) ==> le(MIN_PITCH, r) && le(r, MAX_PITCH),
        is_nan(pitch) ==> r == pitch,
{
    proof {
        lemma_size_order(MAX_PITCH, MIN_PITCH);
    }
    if less(MAX_PITCH, pitch) {
        MAX_PITCH
    } else if less(pitch, MIN_PITCH) {
        MIN_PITCH
    } else {
        pitch
    }
}

/// The direction in which the camera looks: yaw and pitch, in radians. The
/// pitch is within the limit at all times.
#[derive(Clone, Copy, Debug, PartialEq, Eq)]
pub struct Orientation {
    yaw: u32,
    pitch: u32,
}

impl Orientation {
    #[verifier::type_invariant]
    spec fn pitch_is_limited(self) -> bool {
        pitch_within_limit(self.pitch)
    }

    /// The yaw.
    pub closed spec fn spec_yaw(self) -> u32 {
        self.yaw
    }

    /// The pitch.
    pub closed spec fn spec_pitch(self) -> u32 {
        self.pitch
    }

    /// The orientation with the given yaw, and with the given pitch as
    /// far as the limit lets it go.
    pub fn new(yaw: u32, pitch: u32) -> (o: Orientation)
        ensures
            o.spec_yaw() == yaw,
            o.spec_pitch() == clamped_pitch(pitch),
    {
        Orientation { yaw, pitch: clamp_pitch(pitch) }
    }

    /// The yaw.
    pub fn yaw(&self) -> (yaw: u32)
        ensures
            yaw == self.spec_yaw(),
    {
        self.yaw
    }

    /// The pitch. It is within the limit, whatever the orientation went
    /// through.
    pub fn pitch(&self) -> (pitch: u32)
        ensures
            pitch == self.spec_pitch(),
            pitch_within_limit(pitch),
    {
        proof {
            use_type_invariant(self);
        }
        self.pitch
    }
}

/// The factor that a direction of pointer motion is taken with: minus one
/// where it is turned around, one where it is not.
pub fn sign(invert: bool) -> (s: u32)
    ensures
        s == if invert {
            0xbf80_0000u32
        } else {
            ONE
        },
{
    if invert {
        ONE + SIGN
    } else {
        ONE
    }
}

/// Whether a vector of squared length `length2` is too short to be
/// normalized: the camera's right vector is, where it looks along its up
/// vector, and a fixed one is taken in its place.
pub fn is_degenerate(length2: u32) -> (r: bool)
    ensures
        r == lt(length2, DEGENERATE),
{
    less(length2, DEGENERATE)
}

/// Whether a movement of squared length `length2` is longer than one and is
/// to be cut to one.
pub fn exceeds_unit(length2: u32) -> (r: bool)
    ensures
        r == lt(ONE, length2),
{
    less(ONE, length2)
}

} // verus!
