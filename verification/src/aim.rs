use vstd::prelude::*;
use crate::geometry::fits_i64;

verus! {

/// Rotation contribution of one held aim key, in milli-radians per
/// second; the delta for a frame is this speed times the frame time,
/// giving micro-radians.
pub const AIM_SPEED_MILLI: i64 = 1500;

/// Signed local-axis rotation delta for one frame, in micro-radians:
/// the key toward the positive sense and the key toward the negative
/// sense each contribute the aim speed with opposite signs, and the
/// magnitude grows linearly with the frame time.
pub open spec fn spec_aim_delta(toward_positive: bool, toward_negative: bool, dt_ms: int) -> int {
    ((if toward_positive {
        1int
    } else {
        0int
    }) - (if toward_negative {
        1int
    } else {
        0int
    })) * AIM_SPEED_MILLI * dt_ms
}

/// Computes the signed aim delta for one opposing key pair.
fn aim_delta(toward_positive: bool, toward_negative: bool, dt_ms: u32) -> (d: i64)
    ensures
        d == spec_aim_delta(toward_positive, toward_negative, dt_ms as int),
{
    let sign: i64 = (if toward_positive {
        1
    } else {
        0
    }) - (if toward_negative {
        1
    } else {
        0
    });
    proof {
        assert(-1500 * 0x1_0000_0000i64 <= sign * AIM_SPEED_MILLI * (dt_ms as int) <= 1500
            * 0x1_0000_0000i64) by (nonlinear_arith)
            requires
                -1500 <= sign * AIM_SPEED_MILLI <= 1500,
                0 <= dt_ms < 0x1_0000_0000,
        ;
    }
    sign * AIM_SPEED_MILLI * (dt_ms as i64)
}

/// Turret yaw delta for one frame: the right arrow turns toward
/// positive local yaw, the left arrow toward negative.
pub fn turret_yaw_delta(left: bool, right: bool, dt_ms: u32) -> (d: i64)
    ensures
        d == spec_aim_delta(right, left, dt_ms as int),
{
    aim_delta(right, left, dt_ms)
}

/// Cannon pitch delta for one frame: the down arrow turns toward
/// positive local pitch, the up arrow toward negative, which raises
/// the barrel.
pub fn cannon_pitch_delta(up: bool, down: bool, dt_ms: u32) -> (d: i64)
    ensures
        d == spec_aim_delta(down, up, dt_ms as int),
{
    aim_delta(down, up, dt_ms)
}

/// Rotates the turret's local yaw angle by one frame's delta. The
/// angle is not clamped: held keys wind it through full revolutions.
pub fn rotate_turret(yaw_urad: &mut i64, left: bool, right: bool, dt_ms: u32)
    requires
        fits_i64(*old(yaw_urad) + spec_aim_delta(right, left, dt_ms as int)),
    ensures
        *final(yaw_urad) == *old(yaw_urad) + spec_aim_delta(right, left, dt_ms as int),
{
    let d = turret_yaw_delta(left, right, dt_ms);
    *yaw_urad = *yaw_urad + d;
}

/// Rotates the cannon's local pitch angle by one frame's delta. The
/// angle is not clamped: the cannon can pitch through a full
/// revolution.
pub fn elevate_cannon(pitch_urad: &mut i64, up: bool, down: bool, dt_ms: u32)
    requires
        fits_i64(*old(pitch_urad) + spec_aim_delta(down, up, dt_ms as int)),
    ensures
        *final(pitch_urad) == *old(pitch_urad) + spec_aim_delta(down, up, dt_ms as int),
{
    let d = cannon_pitch_delta(up, down, dt_ms);
    *pitch_urad = *pitch_urad + d;
}

/// One key alone gives a delta whose sign follows the key — positive
/// for the key toward the positive sense, negative and of equal
/// magnitude for its opposite — and whose magnitude is the aim speed
/// times the frame time.
pub proof fn lemma_aim_delta_signs(dt_ms: int)
    requires
        dt_ms >= 0,
    ensures
        spec_aim_delta(true, false, dt_ms) == AIM_SPEED_MILLI * dt_ms,
        spec_aim_delta(false, true, dt_ms) == -(AIM_SPEED_MILLI * dt_ms),
        spec_aim_delta(true, false, dt_ms) >= 0,
        spec_aim_delta(false, true, dt_ms) <= 0,
        spec_aim_delta(true, false, dt_ms) == -spec_aim_delta(false, true, dt_ms),
{
    assert(1 * AIM_SPEED_MILLI * dt_ms == AIM_SPEED_MILLI * dt_ms) by (nonlinear_arith);
    assert((-1) * AIM_SPEED_MILLI * dt_ms == -(AIM_SPEED_MILLI * dt_ms)) by (nonlinear_arith);
    assert(AIM_SPEED_MILLI * dt_ms >= 0) by (nonlinear_arith)
        requires
            dt_ms >= 0,
    ;
}

/// The aim delta scales linearly with the frame time: aiming over two
/// frame times adds the deltas of the parts.
pub proof fn lemma_aim_delta_linear_in_dt(
    toward_positive: bool,
    toward_negative: bool,
    dt_a: int,
    dt_b: int,
)
    ensures
        spec_aim_delta(toward_positive, toward_negative, dt_a + dt_b) == spec_aim_delta(
            toward_positive,
            toward_negative,
            dt_a,
        ) + spec_aim_delta(toward_positive, toward_negative, dt_b),
{
    let s = (if toward_positive {
        1int
    } else {
        0int
    }) - (if toward_negative {
        1int
    } else {
        0int
    });
    assert(s * AIM_SPEED_MILLI * (dt_a + dt_b) == s * AIM_SPEED_MILLI * dt_a + s * AIM_SPEED_MILLI
        * dt_b) by (nonlinear_arith);
}

/// Holding both keys of a pair cancels: the delta is zero.
pub proof fn lemma_aim_both_keys_cancel(held: bool, dt_ms: int)
    ensures
        spec_aim_delta(held, held, dt_ms) == 0,
{
    assert(0 * AIM_SPEED_MILLI * dt_ms == 0) by (nonlinear_arith);
}

} // verus!
