use tank_control::aim::{cannon_pitch_delta, elevate_cannon, rotate_turret, turret_yaw_delta};
use tank_control::camera::{CameraRig, OrbitTarget};
use tank_control::geometry::{Dir3, Vec3};
use tank_control::input::EdgeTrigger;
use tank_control::projectile::{move_shell, MuzzlePose, ProjectileSpawner, SpawnOrder};
use tank_control::tags::{find_ci, Role, TagRule, TagScanner};
use tank_control::vehicle::{apply_drive, drive_command, DriveKeys, VehiclePose};

fn keys(forward: bool, back: bool, left: bool, right: bool) -> DriveKeys {
    DriveKeys { forward, back, left, right }
}

fn minus_z() -> Dir3 {
    Dir3::new(0, 0, -1000)
}

#[test]
fn idle_input_gives_zero_command() {
    let cmd = drive_command(DriveKeys::released(), 16);
    assert_eq!(cmd.yaw_delta_urad, 0);
    assert_eq!(cmd.forward_delta_micro, 0);
}

#[test]
fn idle_input_leaves_pose_unchanged() {
    let start = VehiclePose { pos: Vec3 { x: 7, y: 8, z: 9 }, yaw_urad: 123 };
    let mut pose = start;
    apply_drive(&mut pose, DriveKeys::released(), 16, minus_z());
    assert_eq!(pose, start);
}

#[test]
fn forward_and_back_cancel() {
    let cmd = drive_command(keys(true, true, false, false), 16);
    assert_eq!(cmd.forward_delta_micro, 0);
    assert_eq!(cmd.yaw_delta_urad, 0);
}

#[test]
fn left_and_right_cancel() {
    let cmd = drive_command(keys(false, false, true, true), 16);
    assert_eq!(cmd.yaw_delta_urad, 0);
}

#[test]
fn forward_key_drives_at_four_units_per_second() {
    // 0.8 drive speed times gain 5 is 4 units per second; over 16 ms
    // that is 64_000 micro-units.
    let cmd = drive_command(keys(true, false, false, false), 16);
    assert_eq!(cmd.forward_delta_micro, 64_000);
    assert_eq!(cmd.yaw_delta_urad, 0);
}

#[test]
fn left_key_turns_at_one_radian_per_second() {
    // 0.5 steer speed times gain 2 is 1 radian per second; over 16 ms
    // that is 16_000 micro-radians, toward positive yaw.
    let cmd = drive_command(keys(false, false, true, false), 16);
    assert_eq!(cmd.yaw_delta_urad, 16_000);
    let cmd = drive_command(keys(false, false, false, true), 16);
    assert_eq!(cmd.yaw_delta_urad, -16_000);
}

#[test]
fn drive_translates_along_heading() {
    let mut pose = VehiclePose { pos: Vec3 { x: 0, y: 0, z: 0 }, yaw_urad: 0 };
    apply_drive(&mut pose, keys(true, false, false, false), 16, minus_z());
    assert_eq!(pose.yaw_urad, 0);
    assert_eq!(pose.pos, Vec3 { x: 0, y: 0, z: -64_000_000 });
}

#[test]
fn drive_rotates_before_translating() {
    let mut pose = VehiclePose { pos: Vec3 { x: 0, y: 0, z: 0 }, yaw_urad: 500 };
    // The heading passed in belongs to the updated yaw; the pose must
    // carry the new yaw and the translation along that heading.
    apply_drive(&mut pose, keys(false, true, true, false), 10, Dir3::new(-1000, 0, 0));
    assert_eq!(pose.yaw_urad, 500 + 10_000);
    assert_eq!(pose.pos, Vec3 { x: 40_000_000, y: 0, z: 0 });
}

#[test]
fn turret_delta_sign_follows_arrow_keys() {
    assert_eq!(turret_yaw_delta(false, true, 100), 150_000);
    assert_eq!(turret_yaw_delta(true, false, 100), -150_000);
    assert_eq!(turret_yaw_delta(false, false, 100), 0);
    assert_eq!(turret_yaw_delta(true, true, 100), 0);
}

#[test]
fn turret_delta_scales_linearly_with_frame_time() {
    let d10 = turret_yaw_delta(false, true, 10);
    let d20 = turret_yaw_delta(false, true, 20);
    let d30 = turret_yaw_delta(false, true, 30);
    assert_eq!(d10 + d20, d30);
    assert_eq!(d10 * 2, d20);
}

#[test]
fn cannon_delta_sign_follows_arrow_keys() {
    // The up arrow turns toward negative pitch, which raises the
    // barrel.
    assert_eq!(cannon_pitch_delta(true, false, 100), -150_000);
    assert_eq!(cannon_pitch_delta(false, true, 100), 150_000);
    assert_eq!(cannon_pitch_delta(true, true, 100), 0);
}

#[test]
fn aim_rotation_accumulates_unclamped() {
    let mut yaw: i64 = 0;
    rotate_turret(&mut yaw, false, true, 1000);
    rotate_turret(&mut yaw, false, true, 1000);
    assert_eq!(yaw, 3_000_000);
    let mut pitch: i64 = 200;
    elevate_cannon(&mut pitch, true, false, 1000);
    assert_eq!(pitch, 200 - 1_500_000);
}

#[test]
fn edge_trigger_fires_once_per_press() {
    let mut t = EdgeTrigger::new();
    assert!(t.sample(true));
    assert!(!t.sample(true));
    assert!(!t.sample(false));
    assert!(t.sample(true));
}

fn muzzle_toward_minus_z() -> MuzzlePose {
    MuzzlePose { position: Vec3 { x: 0, y: 0, z: 0 }, forward: minus_z() }
}

#[test]
fn held_fire_key_spawns_exactly_once() {
    let mut spawner = ProjectileSpawner::new();
    let m = muzzle_toward_minus_z();
    let mut spawned: u32 = 0;
    for _ in 0..5 {
        if spawner.tick(true, Some(m)).is_some() {
            spawned += 1;
        }
    }
    assert_eq!(spawned, 1);
    // Releasing and pressing again is a new edge.
    assert!(spawner.tick(false, Some(m)).is_none());
    assert!(spawner.tick(true, Some(m)).is_some());
}

#[test]
fn missing_cannon_skips_the_shot() {
    let mut spawner = ProjectileSpawner::new();
    assert_eq!(spawner.tick(true, None), None);
    // The edge is still consumed: resolving the cannon one frame
    // later does not fire from the old press.
    assert_eq!(spawner.tick(true, Some(muzzle_toward_minus_z())), None);
}

#[test]
fn spawn_order_places_and_launches_the_shell() {
    let mut spawner = ProjectileSpawner::new();
    let m = MuzzlePose { position: Vec3 { x: 1_000_000_000, y: 500_000_000, z: 0 }, forward: minus_z() };
    let shot = spawner.tick(true, Some(m)).unwrap();
    // The launch direction is the flipped forward: plus Z. The shell
    // appears 0.7 units ahead of the muzzle.
    assert_eq!(
        shot,
        SpawnOrder {
            position: Vec3 { x: 1_000_000_000, y: 500_000_000, z: 700_000_000 },
            // 15 units per second along the launch direction, with the
            // 5 units per second bias added to every component.
            velocity: Vec3 {
                x: 5_000_000_000,
                y: 5_000_000_000,
                z: 20_000_000_000,
            },
        }
    );
}

#[test]
fn shell_translation_moves_along_its_forward() {
    let mut pos = Vec3 { x: 0, y: 0, z: 0 };
    // 6 units per second over 500 ms is 3 units.
    move_shell(&mut pos, minus_z(), 500);
    assert_eq!(pos, Vec3 { x: 0, y: 0, z: -3_000_000_000 });
}

#[test]
fn camera_starts_following() {
    let rig = CameraRig::new();
    assert!(rig.follow_mode);
    assert!(!rig.orbit_enabled);
}

#[test]
fn follow_camera_targets_behind_and_above() {
    let mut rig = CameraRig::new();
    let pos = Vec3 { x: 1, y: 2, z: 3 };
    let target = rig.tick(false, pos, minus_z()).unwrap();
    // Focus on the vehicle; camera 15 units behind the heading and 10
    // units up.
    assert_eq!(
        target,
        OrbitTarget {
            focus: pos,
            offset: Vec3 { x: 0, y: 10_000_000_000, z: 15_000_000_000 },
        }
    );
}

#[test]
fn double_toggle_restores_camera_state_and_target() {
    let mut rig = CameraRig::new();
    let start = rig;
    let pos = Vec3 { x: 4, y: 5, z: 6 };
    let first = rig.tick(true, pos, minus_z());
    assert!(!rig.follow_mode);
    assert!(rig.orbit_enabled);
    let second = rig.tick(true, pos, minus_z());
    assert_eq!(rig, start);
    assert_eq!(first, second);
    assert!(first.is_some());
}

#[test]
fn free_camera_without_toggle_does_nothing() {
    let mut rig = CameraRig::new();
    rig.tick(true, Vec3 { x: 0, y: 0, z: 0 }, minus_z());
    assert!(!rig.follow_mode);
    assert_eq!(rig.tick(false, Vec3 { x: 0, y: 0, z: 0 }, minus_z()), None);
}

fn demo_rules() -> Vec<TagRule> {
    vec![
        TagRule { pattern: b"tankfree_canon".to_vec(), role: Role::Cannon },
        TagRule { pattern: b"tankfree_tower".to_vec(), role: Role::Turret },
    ]
}

#[test]
fn names_resolve_case_insensitively() {
    let scanner = TagScanner::new(demo_rules());
    assert_eq!(scanner.classify(b"TankFree_Canon.001"), Some(Role::Cannon));
    assert_eq!(scanner.classify(b"tankfree_tower"), Some(Role::Turret));
    assert_eq!(scanner.classify(b"TankFree_Hull"), None);
}

#[test]
fn scanning_twice_attaches_the_tag_once() {
    let mut scanner = TagScanner::new(demo_rules());
    scanner.scan_node(7, b"TankFree_Canon.001");
    assert_eq!(scanner.role_of(7), Some(Role::Cannon));
    // The second scan of the same node is a no-op: the tag is not
    // re-evaluated, even against a name that would resolve otherwise.
    scanner.scan_node(7, b"TankFree_Tower");
    assert_eq!(scanner.role_of(7), Some(Role::Cannon));
}

#[test]
fn scan_tolerates_no_match() {
    let mut scanner = TagScanner::new(demo_rules());
    scanner.scan_node(1, b"Ground");
    assert_eq!(scanner.role_of(1), None);
}

#[test]
fn batch_scan_tags_each_matching_node() {
    let mut scanner = TagScanner::new(demo_rules());
    let nodes: Vec<(u64, Vec<u8>)> = vec![
        (1, b"TankFree_Body".to_vec()),
        (2, b"TankFree_Tower".to_vec()),
        (3, b"TankFree_Canon".to_vec()),
    ];
    scanner.scan_nodes(&nodes);
    assert_eq!(scanner.role_of(1), None);
    assert_eq!(scanner.role_of(2), Some(Role::Turret));
    assert_eq!(scanner.role_of(3), Some(Role::Cannon));
}

#[test]
fn substring_search_is_case_insensitive() {
    assert!(find_ci(b"Abc_TankFree_Canon_7", b"tankfree_canon"));
    assert!(find_ci(b"abc", b""));
    assert!(!find_ci(b"ab", b"abc"));
    assert!(!find_ci(b"tankfree_tower", b"tankfree_canon"));
}
