use vstd::prelude::*;
use crate::geometry::{Dir3, Vec3};

verus! {

/// Distance kept behind the vehicle, as the factor that turns a
/// milli-unit direction component into 15 world units of nano-units.
pub const FOLLOW_DISTANCE_FACTOR: i64 = 15_000_000;

/// Height kept above the vehicle: 10 world units, in nano-units.
pub const FOLLOW_HEIGHT_NANO: i64 = 10_000_000_000;

/// The camera mode state: whether the camera follows the vehicle, and
/// whether the external orbit service's own input handling is enabled.
/// The two are kept opposite: orbit input takes over exactly when
/// follow mode is off.
#[derive(Clone, Copy, Debug, PartialEq, Eq, Structural)]
pub struct CameraRig {
    pub follow_mode: bool,
    pub orbit_enabled: bool,
}

/// What the external orbit service is asked to interpolate toward: the
/// focus point, and the offset from the focus to the desired camera
/// position, both in nano-units. The service derives its radius, yaw
/// and pitch from the offset.
#[derive(Clone, Copy, Debug, PartialEq, Eq, Structural)]
pub struct OrbitTarget {
    pub focus: Vec3,
    pub offset: Vec3,
}

/// The orbit target for a vehicle pose: focus on the vehicle, camera
/// behind it by the follow distance and above it by the follow height.
/// The vehicle's position cancels out of the offset, which therefore
/// depends on the vehicle's heading alone.
pub open spec fn spec_orbit_target(vehicle_pos: Vec3, vehicle_forward: Dir3) -> OrbitTarget {
    OrbitTarget {
        focus: vehicle_pos,
        offset: Vec3 {
            x: (-(vehicle_forward.x * FOLLOW_DISTANCE_FACTOR)) as i64,
            y: (FOLLOW_HEIGHT_NANO - vehicle_forward.y * FOLLOW_DISTANCE_FACTOR) as i64,
            z: (-(vehicle_forward.z * FOLLOW_DISTANCE_FACTOR)) as i64,
        },
    }
}

impl CameraRig {
    /// Orbit input is enabled exactly when follow mode is off.
    pub open spec fn wf(self) -> bool {
        self.orbit_enabled == !self.follow_mode
    }

    /// The rig state after one frame: a toggle edge flips follow mode
    /// and hands orbit input the opposite enablement; otherwise the
    /// rig is untouched.
    pub open spec fn spec_rig_after(self, toggle_edge: bool) -> CameraRig {
        if toggle_edge {
            CameraRig { follow_mode: !self.follow_mode, orbit_enabled: self.follow_mode }
        } else {
            self
        }
    }

    /// What one frame feeds the orbit service: a fresh target whenever
    /// follow mode is on or the mode was toggled this frame (so a
    /// toggle snaps the camera at once), and nothing otherwise.
    pub open spec fn spec_cam_decision(self, toggle_edge: bool, vehicle_pos: Vec3, vehicle_forward: Dir3) -> Option<
        OrbitTarget,
    > {
        if toggle_edge || self.follow_mode {
            Some(spec_orbit_target(vehicle_pos, vehicle_forward))
        } else {
            None
        }
    }

    /// A camera rig starts in follow mode, with orbit input disabled.
    pub fn new() -> (rig: CameraRig)
        ensures
            rig.follow_mode,
            !rig.orbit_enabled,
            rig.wf(),
    {
        CameraRig { follow_mode: true, orbit_enabled: false }
    }

    /// Runs one frame of the follow-camera controller against the
    /// vehicle's sampled pose. Returns the target to feed the orbit
    /// service, or nothing when the camera is in free orbit and no
    /// toggle happened. Keeps the rig well formed.
    pub fn tick(&mut self, toggle_edge: bool, vehicle_pos: Vec3, vehicle_forward: Dir3) -> (target: Option<
        OrbitTarget,
    >)
        requires
            vehicle_forward.wf(),
        ensures
            *final(self) == old(self).spec_rig_after(toggle_edge),
            target == old(self).spec_cam_decision(toggle_edge, vehicle_pos, vehicle_forward),
            old(self).wf() ==> final(self).wf(),
    {
        if toggle_edge || self.follow_mode {
            let target = OrbitTarget {
                focus: vehicle_pos,
                offset: Vec3 {
                    x: -(vehicle_forward.x * FOLLOW_DISTANCE_FACTOR),
                    y: FOLLOW_HEIGHT_NANO - vehicle_forward.y * FOLLOW_DISTANCE_FACTOR,
                    z: -(vehicle_forward.z * FOLLOW_DISTANCE_FACTOR),
                },
            };
            if toggle_edge {
                self.follow_mode = !self.follow_mode;
                self.orbit_enabled = !self.follow_mode;
            }
            Some(target)
        } else {
            None
        }
    }
}

/// Toggling follow mode twice, with the vehicle unmoved in between,
/// returns the rig to its original state, and both frames feed the
/// orbit service one and the same target, so the camera's target
/// parameters come back to their original values.
pub proof fn lemma_double_toggle_restores(rig: CameraRig, vehicle_pos: Vec3, vehicle_forward: Dir3)
    requires
        rig.wf(),
    ensures
        rig.spec_rig_after(true).spec_rig_after(true) == rig,
        rig.spec_cam_decision(true, vehicle_pos, vehicle_forward) == rig.spec_rig_after(
            true,
        ).spec_cam_decision(true, vehicle_pos, vehicle_forward),
        rig.spec_cam_decision(true, vehicle_pos, vehicle_forward) == Some(
            spec_orbit_target(vehicle_pos, vehicle_forward),
        ),
{
}

} // verus!
