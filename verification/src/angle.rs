//! Raw-to-calibrated angle conversion and direction sign detection.
//!
//! The rotary magnetic encoder reports a raw sample in its native circular
//! range 0..4095 with period 4096. Calibration records an anchor sample as
//! the zero offset and a rotation sign, and a calibrated angle is then the
//! signed count `direction * raw - offset`, folded once into the range
//! (-2048, 2048]. One count is `pi / 2048` radians, so this integer range
//! is the radian range (-pi, pi].

use vstd::prelude::*;
use vstd::arithmetic::mul::lemma_mul_basics;
use vstd::arithmetic::mul::lemma_mul_unary_negation;

verus! {

/// Rotation sign from two raw encoder samples, wraparound-aware.
///
/// `angle` is the most recent sample and `offset` the anchor sample; the
/// pendulum was rotated counter-clockwise between them. A raw difference
/// greater than half the encoder period (2048) means the true rotation was
/// the shorter arc in the opposite numeric direction, so the sign is
/// inverted relative to the naive comparison.
pub open spec fn spec_direction(angle: int, offset: int) -> int {
    if angle > offset {
        if angle - offset > 2048 {
            -1
        } else {
            1
        }
    } else {
        if offset - angle > 2048 {
            1
        } else {
            -1
        }
    }
}

/// Detect the rotation sign of the encoder from two raw samples.
///
/// Returns 1 when counter-clockwise rotation increases the raw value, and
/// -1 when it decreases it, correcting for the circular wrap of the 12-bit
/// encoder range.
pub fn get_direction(angle: u16, offset: u16) -> (d: i8)
    ensures
        d as int == spec_direction(angle as int, offset as int),
        d == 1i8 || d == -1i8,
{
    if angle > offset {
        if angle - offset > 2048 {
            -1  // Counter-clockwise is negative
        } else {
            1  // Counter-clockwise is positive
        }
    } else {
        if offset - angle > 2048 {
            1  // Counter-clockwise is positive
        } else {
            -1  // Counter-clockwise is negative
        }
    }
}

/// Fold an uncalibrated angle count once into (-2048, 2048]: a single
/// correction by one full period, the designed wrap of the conversion.
pub open spec fn spec_wrap_once(a: int) -> int {
    if a < -2048 {
        a + 4096
    } else if a > 2048 {
        a - 4096
    } else {
        a
    }
}

/// The calibrated angle, in encoder counts, of a raw sample under a stored
/// calibration: apply the rotation sign, subtract the offset anchor, and
/// fold once into (-2048, 2048].
pub open spec fn spec_angle_counts(raw: int, offset: int, direction: int) -> int {
    spec_wrap_once(direction * raw - offset)
}

/// Multiplication by a sign is selection of the value or its negation.
proof fn lemma_sign_mul(d: int, r: int)
    requires
        d == 1 || d == -1,
    ensures
        d == 1 ==> d * r == r,
        d == -1 ==> d * r == -r,
{
    lemma_mul_basics(r);
    lemma_mul_unary_negation(1, r);
}

/// Convert a raw encoder sample to a calibrated angle count under the
/// given calibration, folding once into (-2048, 2048].
pub fn angle_counts(raw: u16, offset: u16, direction: i8) -> (a: i32)
    requires
        raw <= 4095,
        offset <= 4095,
        direction == 1i8 || direction == -1i8,
    ensures
        a as int == spec_angle_counts(raw as int, offset as int, direction as int),
{
    let signed: i32 = if direction == 1 {
        raw as i32
    } else {
        -(raw as i32)
    };
    proof {
        lemma_sign_mul(direction as int, raw as int);
    }
    let a: i32 = signed - offset as i32;
    if a < -2048 {
        a + 4096
    } else if a > 2048 {
        a - 4096
    } else {
        a
    }
}

/// The calibrated angle lies in (-2048, 2048] — the radian range (-pi, pi]
/// — for every raw sample and calibration whose uncalibrated count the
/// single designed wrap correction reaches: the count must differ from
/// -2048 (which the fold keeps as the excluded endpoint -pi) and exceed
/// -6144 (beyond which one correction is not enough).
pub proof fn lemma_angle_in_range(raw: int, offset: int, direction: int)
    requires
        0 <= raw <= 4095,
        0 <= offset <= 4095,
        direction == 1 || direction == -1,
        direction * raw - offset != -2048,
        direction * raw - offset > -6144,
    ensures
        -2048 < spec_angle_counts(raw, offset, direction) <= 2048,
{
    lemma_sign_mul(direction, raw);
}

/// The conversion is continuous in the raw sample but for the single
/// designed wrap point: one raw step moves the calibrated angle by the
/// rotation sign, or by the sign displaced by one full period where the
/// fold switches over.
pub proof fn lemma_angle_continuity(raw: int, offset: int, direction: int)
    requires
        0 <= raw < 4095,
        0 <= offset <= 4095,
        direction == 1 || direction == -1,
    ensures
        ({
            let d = spec_angle_counts(raw + 1, offset, direction) - spec_angle_counts(
                raw,
                offset,
                direction,
            );
            d == direction || d == direction - 4096 || d == direction + 4096
        }),
{
    lemma_sign_mul(direction, raw);
    lemma_sign_mul(direction, raw + 1);
}

} // verus!
