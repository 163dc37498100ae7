use vstd::prelude::*;

verus! {

/// Positions, offsets and velocities are measured in nano-units: one
/// world unit is 1_000_000_000 nano-units.
pub const NANO_PER_UNIT: i64 = 1_000_000_000;

/// Directions are measured in milli-units: a unit-length axis vector
/// has magnitude DIR_SCALE, and no component of a well-formed
/// direction exceeds DIR_SCALE in absolute value.
pub const DIR_SCALE: i64 = 1000;

/// Whether a mathematical integer fits in a signed 64-bit word.
pub open spec fn fits_i64(v: int) -> bool {
    i64::MIN <= v <= i64::MAX
}

/// A point or displacement in world space, in nano-units.
#[derive(Clone, Copy, Debug, PartialEq, Eq, Structural)]
pub struct Vec3 {
    pub x: i64,
    pub y: i64,
    pub z: i64,
}

/// A direction in world or local space, in milli-units.
///
/// A well-formed direction is the image of a vector of length at most
/// one, so each component lies within DIR_SCALE milli-units.
#[derive(Clone, Copy, Debug, PartialEq, Eq, Structural)]
pub struct Dir3 {
    pub x: i64,
    pub y: i64,
    pub z: i64,
}

impl Dir3 {
    /// Every component lies within one unit length.
    pub open spec fn wf(self) -> bool {
        &&& -DIR_SCALE <= self.x <= DIR_SCALE
        &&& -DIR_SCALE <= self.y <= DIR_SCALE
        &&& -DIR_SCALE <= self.z <= DIR_SCALE
    }

    /// The opposite direction.
    pub open spec fn spec_flipped(self) -> Dir3 {
        Dir3 { x: (-self.x) as i64, y: (-self.y) as i64, z: (-self.z) as i64 }
    }

    /// Builds a direction from milli-unit components.
    pub fn new(x: i64, y: i64, z: i64) -> (d: Dir3)
        requires
            -DIR_SCALE <= x <= DIR_SCALE,
            -DIR_SCALE <= y <= DIR_SCALE,
            -DIR_SCALE <= z <= DIR_SCALE,
        ensures
            d == (Dir3 { x, y, z }),
            d.wf(),
    {
        Dir3 { x, y, z }
    }

    /// Returns the opposite direction.
    pub fn flipped(&self) -> (d: Dir3)
        requires
            self.wf(),
        ensures
            d == self.spec_flipped(),
            d.wf(),
    {
        Dir3 { x: -self.x, y: -self.y, z: -self.z }
    }
}

} // verus!
