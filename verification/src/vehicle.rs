use vstd::prelude::*;
use crate::geometry::{Dir3, Vec3, fits_i64};

verus! {

/// Drive contribution of one held drive key, in milli-units per
/// second.
pub const DRIVE_SPEED_MILLI: i64 = 800;

/// Steer contribution of one held steer key, in milli-radians per
/// second.
pub const STEER_SPEED_MILLI: i64 = 500;

/// Gain applied to the drive axis before translation.
pub const MOVE_GAIN: i64 = 5;

/// Gain applied to the steer axis before rotation.
pub const YAW_GAIN: i64 = 2;

/// The four drive keys as sampled for one frame.
#[derive(Clone, Copy, Debug, PartialEq, Eq, Structural)]
pub struct DriveKeys {
    pub forward: bool,
    pub back: bool,
    pub left: bool,
    pub right: bool,
}

impl DriveKeys {
    /// No drive key held.
    pub fn released() -> (k: DriveKeys)
        ensures
            k == (DriveKeys { forward: false, back: false, left: false, right: false }),
    {
        DriveKeys { forward: false, back: false, left: false, right: false }
    }
}

/// The vehicle pose the controller mutates: a position in nano-units
/// and a heading angle in micro-radians.
#[derive(Clone, Copy, Debug, PartialEq, Eq, Structural)]
pub struct VehiclePose {
    pub pos: Vec3,
    pub yaw_urad: i64,
}

/// One frame's pose delta: how far to rotate about the world up axis,
/// in micro-radians, and how far to translate along the updated
/// heading, in micro-units.
#[derive(Clone, Copy, Debug, PartialEq, Eq, Structural)]
pub struct DriveCommand {
    pub yaw_delta_urad: i64,
    pub forward_delta_micro: i64,
}

/// Signed drive axis: the forward key and the back key each contribute
/// the drive speed with opposite signs, so holding both cancels.
pub open spec fn spec_drive_axis(keys: DriveKeys) -> int {
    (if keys.forward {
        DRIVE_SPEED_MILLI as int
    } else {
        0
    }) - (if keys.back {
        DRIVE_SPEED_MILLI as int
    } else {
        0
    })
}

/// Signed steer axis: the left key turns toward positive yaw, the
/// right key toward negative yaw, and holding both cancels.
pub open spec fn spec_steer_axis(keys: DriveKeys) -> int {
    (if keys.left {
        STEER_SPEED_MILLI as int
    } else {
        0
    }) - (if keys.right {
        STEER_SPEED_MILLI as int
    } else {
        0
    })
}

/// Yaw change for one frame, in micro-radians.
pub open spec fn spec_yaw_delta(keys: DriveKeys, dt_ms: int) -> int {
    spec_steer_axis(keys) * YAW_GAIN * dt_ms
}

/// Forward translation for one frame, in micro-units.
pub open spec fn spec_forward_delta(keys: DriveKeys, dt_ms: int) -> int {
    spec_drive_axis(keys) * MOVE_GAIN * dt_ms
}

/// The vehicle pose after one frame of driving: yaw is updated first,
/// and the translation runs along the supplied heading, which belongs
/// to the updated yaw.
pub open spec fn spec_driven_pose(p: VehiclePose, keys: DriveKeys, dt_ms: int, heading: Dir3) -> VehiclePose {
    VehiclePose {
        yaw_urad: (p.yaw_urad + spec_yaw_delta(keys, dt_ms)) as i64,
        pos: Vec3 {
            x: (p.pos.x + heading.x * spec_forward_delta(keys, dt_ms)) as i64,
            y: (p.pos.y + heading.y * spec_forward_delta(keys, dt_ms)) as i64,
            z: (p.pos.z + heading.z * spec_forward_delta(keys, dt_ms)) as i64,
        },
    }
}

/// Whether one frame of driving stays within the 64-bit pose fields.
pub open spec fn spec_drive_fits(p: VehiclePose, keys: DriveKeys, dt_ms: int, heading: Dir3) -> bool {
    &&& fits_i64(p.yaw_urad + spec_yaw_delta(keys, dt_ms))
    &&& fits_i64(p.pos.x + heading.x * spec_forward_delta(keys, dt_ms))
    &&& fits_i64(p.pos.y + heading.y * spec_forward_delta(keys, dt_ms))
    &&& fits_i64(p.pos.z + heading.z * spec_forward_delta(keys, dt_ms))
}

/// Maps the sampled drive keys and the frame time to this frame's pose
/// delta. Absent input yields the zero command.
pub fn drive_command(keys: DriveKeys, dt_ms: u32) -> (cmd: DriveCommand)
    ensures
        cmd.yaw_delta_urad == spec_yaw_delta(keys, dt_ms as int),
        cmd.forward_delta_micro == spec_forward_delta(keys, dt_ms as int),
{
    let drive: i64 = (if keys.forward {
        DRIVE_SPEED_MILLI
    } else {
        0
    }) - (if keys.back {
        DRIVE_SPEED_MILLI
    } else {
        0
    });
    let steer: i64 = (if keys.left {
        STEER_SPEED_MILLI
    } else {
        0
    }) - (if keys.right {
        STEER_SPEED_MILLI
    } else {
        0
    });
    proof {
        assert(-1000 * 0x1_0000_0000i64 <= steer * YAW_GAIN * (dt_ms as int) <= 1000 * 0x1_0000_0000i64)
            by (nonlinear_arith)
            requires
                -1000 <= steer * YAW_GAIN <= 1000,
                0 <= dt_ms < 0x1_0000_0000,
        ;
        assert(-4000 * 0x1_0000_0000i64 <= drive * MOVE_GAIN * (dt_ms as int) <= 4000 * 0x1_0000_0000i64)
            by (nonlinear_arith)
            requires
                -4000 <= drive * MOVE_GAIN <= 4000,
                0 <= dt_ms < 0x1_0000_0000,
        ;
    }
    DriveCommand {
        yaw_delta_urad: steer * YAW_GAIN * (dt_ms as i64),
        forward_delta_micro: drive * MOVE_GAIN * (dt_ms as i64),
    }
}

/// Applies one frame of driving to the vehicle pose, rotation first:
/// the heading must be the unit heading of the yaw already updated by
/// this frame's yaw delta, so the translation follows the new heading
/// within the same frame.
pub fn apply_drive(pose: &mut VehiclePose, keys: DriveKeys, dt_ms: u32, heading: Dir3)
    requires
        heading.wf(),
        spec_drive_fits(*old(pose), keys, dt_ms as int, heading),
    ensures
        *final(pose) == spec_driven_pose(*old(pose), keys, dt_ms as int, heading),
{
    let cmd = drive_command(keys, dt_ms);
    pose.yaw_urad = pose.yaw_urad + cmd.yaw_delta_urad;
    proof {
        let fd = spec_forward_delta(keys, dt_ms as int);
        assert(-4000 * 0x1_0000_0000i64 <= fd <= 4000 * 0x1_0000_0000i64 ==> {
            &&& fits_i64(heading.x * fd)
            &&& fits_i64(heading.y * fd)
            &&& fits_i64(heading.z * fd)
        })
            by (nonlinear_arith)
            requires
                -1000 <= heading.x <= 1000,
                -1000 <= heading.y <= 1000,
                -1000 <= heading.z <= 1000,
        ;
        assert(-4000 * 0x1_0000_0000i64 <= fd <= 4000 * 0x1_0000_0000i64) by (nonlinear_arith)
            requires
                fd == spec_drive_axis(keys) * MOVE_GAIN * (dt_ms as int),
                -4000 <= spec_drive_axis(keys) * MOVE_GAIN <= 4000,
                0 <= dt_ms < 0x1_0000_0000,
        ;
    }
    pose.pos.x = pose.pos.x + heading.x * cmd.forward_delta_micro;
    pose.pos.y = pose.pos.y + heading.y * cmd.forward_delta_micro;
    pose.pos.z = pose.pos.z + heading.z * cmd.forward_delta_micro;
}

/// With no key held, one frame of driving changes nothing: the deltas
/// are zero and the pose is returned exactly as it was, for every
/// frame time and heading.
pub proof fn lemma_idle_drive_is_still(p: VehiclePose, keys: DriveKeys, dt_ms: int, heading: Dir3)
    requires
        !keys.forward,
        !keys.back,
        !keys.left,
        !keys.right,
    ensures
        spec_yaw_delta(keys, dt_ms) == 0,
        spec_forward_delta(keys, dt_ms) == 0,
        spec_driven_pose(p, keys, dt_ms, heading) == p,
{
    lemma_opposed_keys_cancel(keys, dt_ms);
    assert(heading.x * 0 == 0) by (nonlinear_arith);
    assert(heading.y * 0 == 0) by (nonlinear_arith);
    assert(heading.z * 0 == 0) by (nonlinear_arith);
}

/// Opposing keys cancel symmetrically: holding forward and back
/// together yields a zero forward delta, and holding left and right
/// together yields a zero yaw delta.
pub proof fn lemma_opposed_keys_cancel(keys: DriveKeys, dt_ms: int)
    ensures
        keys.forward == keys.back ==> spec_forward_delta(keys, dt_ms) == 0,
        keys.left == keys.right ==> spec_yaw_delta(keys, dt_ms) == 0,
{
    if keys.forward == keys.back {
        assert(spec_forward_delta(keys, dt_ms) == 0) by (nonlinear_arith)
            requires
                spec_forward_delta(keys, dt_ms) == spec_drive_axis(keys) * MOVE_GAIN * dt_ms,
                spec_drive_axis(keys) == 0,
        ;
    }
    if keys.left == keys.right {
        assert(spec_yaw_delta(keys, dt_ms) == 0) by (nonlinear_arith)
            requires
                spec_yaw_delta(keys, dt_ms) == spec_steer_axis(keys) * YAW_GAIN * dt_ms,
                spec_steer_axis(keys) == 0,
        ;
    }
}

} // verus!
