use vstd::prelude::*;
use crate::geometry::{Dir3, Vec3, fits_i64};
use crate::input::{EdgeTrigger, spec_edge};

verus! {

/// Launch speed, as the factor that turns a milli-unit direction
/// component into 15 world units per second of nano-units.
pub const LAUNCH_SPEED_FACTOR: i64 = 15_000_000;

/// Upward bias of the launch velocity: 5 units per second, in
/// nano-units, added to every velocity component alike as a rough
/// ballistic arc.
pub const UPWARD_BIAS_NANO: i64 = 5_000_000_000;

/// Muzzle offset, as the factor that turns a milli-unit direction
/// component into the 0.7 world units of nano-units between the
/// cannon and a fresh projectile.
pub const MUZZLE_OFFSET_FACTOR: i64 = 700_000;

/// Shell speed of the direct translation mode, as the factor that
/// turns a milli-unit direction component times a frame time in
/// milliseconds into nano-units: 6 world units per second.
pub const SHELL_SPEED_FACTOR: i64 = 6000;

/// The cannon's world pose as sampled at fire time: muzzle position in
/// nano-units and the cannon's forward direction in milli-units. The
/// launch direction is the flipped forward, following the model
/// asset's forward convention.
#[derive(Clone, Copy, Debug, PartialEq, Eq, Structural)]
pub struct MuzzlePose {
    pub position: Vec3,
    pub forward: Dir3,
}

/// What the physics service is handed for one fresh projectile: where
/// to create it, in nano-units, and its one-time initial velocity, in
/// nano-units per second.
#[derive(Clone, Copy, Debug, PartialEq, Eq, Structural)]
pub struct SpawnOrder {
    pub position: Vec3,
    pub velocity: Vec3,
}

/// The spawn order for a cannon pose: the projectile appears the
/// muzzle offset ahead of the cannon along the launch direction, and
/// its velocity is the launch direction at launch speed with the
/// upward bias added to every component.
pub open spec fn spec_spawn_order(m: MuzzlePose) -> SpawnOrder {
    let launch = m.forward.spec_flipped();
    SpawnOrder {
        position: Vec3 {
            x: (m.position.x + launch.x * MUZZLE_OFFSET_FACTOR) as i64,
            y: (m.position.y + launch.y * MUZZLE_OFFSET_FACTOR) as i64,
            z: (m.position.z + launch.z * MUZZLE_OFFSET_FACTOR) as i64,
        },
        velocity: Vec3 {
            x: (launch.x * LAUNCH_SPEED_FACTOR + UPWARD_BIAS_NANO) as i64,
            y: (launch.y * LAUNCH_SPEED_FACTOR + UPWARD_BIAS_NANO) as i64,
            z: (launch.z * LAUNCH_SPEED_FACTOR + UPWARD_BIAS_NANO) as i64,
        },
    }
}

/// Whether a spawn order stays within the 64-bit position fields.
pub open spec fn spec_spawn_fits(m: MuzzlePose) -> bool {
    let launch = m.forward.spec_flipped();
    &&& fits_i64(m.position.x + launch.x * MUZZLE_OFFSET_FACTOR)
    &&& fits_i64(m.position.y + launch.y * MUZZLE_OFFSET_FACTOR)
    &&& fits_i64(m.position.z + launch.z * MUZZLE_OFFSET_FACTOR)
}

/// What one frame decides: a projectile is ordered exactly when the
/// fire key shows a press edge and a cannon pose is resolved; a held
/// key, a released key or a missing cannon order nothing.
pub open spec fn spec_fire_decision(prev: bool, pressed: bool, muzzle: Option<MuzzlePose>) -> Option<
    SpawnOrder,
> {
    match muzzle {
        Some(m) => if spec_edge(prev, pressed) {
            Some(spec_spawn_order(m))
        } else {
            None
        },
        None => None,
    }
}

/// The projectile spawner: remembers the fire key's level from frame
/// to frame so that a held key fires only on the frame it went down.
#[derive(Clone, Copy, Debug, PartialEq, Eq, Structural)]
pub struct ProjectileSpawner {
    pub trigger: EdgeTrigger,
}

impl ProjectileSpawner {
    /// A spawner that has not yet seen the fire key pressed.
    pub fn new() -> (s: ProjectileSpawner)
        ensures
            !s.trigger.was_pressed,
    {
        ProjectileSpawner { trigger: EdgeTrigger::new() }
    }

    /// Runs one frame of the spawner against the sampled fire-key
    /// level and the cannon pose, if one is resolved. Returns the
    /// spawn order for the physics service, or nothing: a missing
    /// cannon skips the shot silently.
    pub fn tick(&mut self, fire_pressed: bool, muzzle: Option<MuzzlePose>) -> (shot: Option<
        SpawnOrder,
    >)
        requires
            muzzle matches Some(m) ==> m.forward.wf() && spec_spawn_fits(m),
        ensures
            final(self).trigger.was_pressed == fire_pressed,
            shot == spec_fire_decision(old(self).trigger.was_pressed, fire_pressed, muzzle),
    {
        let edge = self.trigger.sample(fire_pressed);
        if edge {
            match muzzle {
                Some(m) => {
                    let launch = m.forward.flipped();
                    Some(
                        SpawnOrder {
                            position: Vec3 {
                                x: m.position.x + launch.x * MUZZLE_OFFSET_FACTOR,
                                y: m.position.y + launch.y * MUZZLE_OFFSET_FACTOR,
                                z: m.position.z + launch.z * MUZZLE_OFFSET_FACTOR,
                            },
                            velocity: Vec3 {
                                x: launch.x * LAUNCH_SPEED_FACTOR + UPWARD_BIAS_NANO,
                                y: launch.y * LAUNCH_SPEED_FACTOR + UPWARD_BIAS_NANO,
                                z: launch.z * LAUNCH_SPEED_FACTOR + UPWARD_BIAS_NANO,
                            },
                        },
                    )
                },
                None => None,
            }
        } else {
            None
        }
    }
}

/// The shell position after one frame of the direct translation mode,
/// which moves an existing projectile along its own forward direction
/// at the shell speed instead of leaving it to physics.
pub open spec fn spec_shell_step(pos: Vec3, forward: Dir3, dt_ms: int) -> Vec3 {
    Vec3 {
        x: (pos.x + forward.x * SHELL_SPEED_FACTOR * dt_ms) as i64,
        y: (pos.y + forward.y * SHELL_SPEED_FACTOR * dt_ms) as i64,
        z: (pos.z + forward.z * SHELL_SPEED_FACTOR * dt_ms) as i64,
    }
}

/// Whether one frame of shell translation stays within the 64-bit
/// position fields.
pub open spec fn spec_shell_step_fits(pos: Vec3, forward: Dir3, dt_ms: int) -> bool {
    &&& fits_i64(pos.x + forward.x * SHELL_SPEED_FACTOR * dt_ms)
    &&& fits_i64(pos.y + forward.y * SHELL_SPEED_FACTOR * dt_ms)
    &&& fits_i64(pos.z + forward.z * SHELL_SPEED_FACTOR * dt_ms)
}

/// Moves one shell forward by one frame of the direct translation
/// mode.
pub fn move_shell(pos: &mut Vec3, forward: Dir3, dt_ms: u32)
    requires
        forward.wf(),
        spec_shell_step_fits(*old(pos), forward, dt_ms as int),
    ensures
        *final(pos) == spec_shell_step(*old(pos), forward, dt_ms as int),
{
    proof {
        assert({
            &&& fits_i64(forward.x * SHELL_SPEED_FACTOR * (dt_ms as int))
            &&& fits_i64(forward.y * SHELL_SPEED_FACTOR * (dt_ms as int))
            &&& fits_i64(forward.z * SHELL_SPEED_FACTOR * (dt_ms as int))
        }) by (nonlinear_arith)
            requires
                0 <= dt_ms < 0x1_0000_0000,
                -1000 <= forward.x <= 1000,
                -1000 <= forward.y <= 1000,
                -1000 <= forward.z <= 1000,
        ;
    }
    pos.x = pos.x + forward.x * SHELL_SPEED_FACTOR * (dt_ms as i64);
    pos.y = pos.y + forward.y * SHELL_SPEED_FACTOR * (dt_ms as i64);
    pos.z = pos.z + forward.z * SHELL_SPEED_FACTOR * (dt_ms as i64);
}

/// How many projectiles a run of frames orders, when the cannon pose
/// stays resolved throughout and the fire key shows the given levels,
/// starting from a spawner that last saw the given level.
pub open spec fn spec_shots_fired(prev: bool, levels: Seq<bool>, muzzle: Option<MuzzlePose>) -> nat
    decreases levels.len(),
{
    if levels.len() == 0 {
        0
    } else {
        (if spec_fire_decision(prev, levels[0], muzzle) is Some {
            1nat
        } else {
            0nat
        }) + spec_shots_fired(levels[0], levels.drop_first(), muzzle)
    }
}

/// How many press edges a run of fire-key levels shows, starting from
/// the given previous level.
pub open spec fn spec_press_edges(prev: bool, levels: Seq<bool>) -> nat
    decreases levels.len(),
{
    if levels.len() == 0 {
        0
    } else {
        (if spec_edge(prev, levels[0]) {
            1nat
        } else {
            0nat
        }) + spec_press_edges(levels[0], levels.drop_first())
    }
}

/// With a cannon resolved throughout, a run of frames orders exactly
/// one projectile per press edge of the fire key — never one per
/// frame held.
pub proof fn lemma_one_shot_per_edge(prev: bool, levels: Seq<bool>, m: MuzzlePose)
    ensures
        spec_shots_fired(prev, levels, Some(m)) == spec_press_edges(prev, levels),
    decreases levels.len(),
{
    if levels.len() > 0 {
        lemma_one_shot_per_edge(levels[0], levels.drop_first(), m);
    }
}

/// While the key stays held, no further shot is ordered, whatever the
/// run's length.
proof fn lemma_held_fire_stays_quiet(levels: Seq<bool>, muzzle: Option<MuzzlePose>)
    requires
        forall|i: int| 0 <= i < levels.len() ==> levels[i],
    ensures
        spec_shots_fired(true, levels, muzzle) == 0,
    decreases levels.len(),
{
    if levels.len() > 0 {
        lemma_held_fire_stays_quiet(levels.drop_first(), muzzle);
    }
}

/// A fire key pressed and then held across any number of frames
/// orders exactly one projectile — one per press edge, not one per
/// frame — when a cannon pose is resolved throughout.
pub proof fn lemma_held_fire_spawns_once(levels: Seq<bool>, m: MuzzlePose)
    requires
        levels.len() >= 1,
        forall|i: int| 0 <= i < levels.len() ==> levels[i],
    ensures
        spec_shots_fired(false, levels, Some(m)) == 1,
{
    lemma_held_fire_stays_quiet(levels.drop_first(), Some(m));
}

/// With no cannon resolved, no run of frames ever orders a shot.
pub proof fn lemma_no_cannon_no_shot(prev: bool, levels: Seq<bool>)
    ensures
        spec_shots_fired(prev, levels, None) == 0,
    decreases levels.len(),
{
    if levels.len() > 0 {
        lemma_no_cannon_no_shot(levels[0], levels.drop_first());
    }
}

} // verus!
