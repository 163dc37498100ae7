/// Fixed-point vectors, directions and range predicates shared by the
/// controllers.
pub mod geometry;

/// Edge detection over sampled button levels.
pub mod input;

/// Vehicle driving: keyboard state and frame time to a yaw and forward
/// delta, applied rotation-first to the vehicle pose.
pub mod vehicle;

/// Turret yaw and cannon pitch: opposing key pairs to signed local-axis
/// rotation deltas.
pub mod aim;

/// Follow-camera mode toggling and orbit-target computation.
pub mod camera;

/// Projectile spawning on fire-key press edges, and the direct
/// translation mode for shells outside physics simulation.
pub mod projectile;

/// Role tagging of named scene nodes by case-insensitive pattern rules.
pub mod tags;
