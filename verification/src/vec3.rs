//! Integer grid vectors.
//!
//! Positions, dimensions and deltas of a selection volume all live in the
//! integer grid space. Coordinates are kept inside [`GRID_LIMIT`] so that
//! every computation in this crate fits comfortably in `i32`.

use vstd::prelude::*;

verus! {

/// Largest magnitude a grid coordinate or dimension handled by this crate
/// may have. Far beyond any realistic map size, and small enough that sums,
/// halvings and the tenths-scaled mesh coordinates never overflow `i32`.
pub const GRID_LIMIT: i32 = 100_000_000;

/// A vector of three grid coordinates.
#[derive(Clone, Copy, Debug, PartialEq, Eq, Structural)]
pub struct Vec3i {
    pub x: i32,
    pub y: i32,
    pub z: i32,
}

impl Vec3i {
    /// All three components within [`GRID_LIMIT`].
    pub open spec fn in_grid(self) -> bool {
        &&& -GRID_LIMIT <= self.x <= GRID_LIMIT
        &&& -GRID_LIMIT <= self.y <= GRID_LIMIT
        &&& -GRID_LIMIT <= self.z <= GRID_LIMIT
    }

    /// Every component is a single grid step or zero, as produced by one
    /// discrete directional input.
    pub open spec fn is_unit_delta(self) -> bool {
        &&& -1 <= self.x <= 1
        &&& -1 <= self.y <= 1
        &&& -1 <= self.z <= 1
    }

    pub open spec fn spec_plus(self, o: Vec3i) -> Vec3i {
        Vec3i { x: (self.x + o.x) as i32, y: (self.y + o.y) as i32, z: (self.z + o.z) as i32 }
    }

    pub open spec fn spec_minus(self, o: Vec3i) -> Vec3i {
        Vec3i { x: (self.x - o.x) as i32, y: (self.y - o.y) as i32, z: (self.z - o.z) as i32 }
    }

    pub fn new(x: i32, y: i32, z: i32) -> (r: Vec3i)
        ensures
            r == (Vec3i { x, y, z }),
    {
        Vec3i { x, y, z }
    }

    pub fn zeros() -> (r: Vec3i)
        ensures
            r == (Vec3i { x: 0, y: 0, z: 0 }),
    {
        Vec3i { x: 0, y: 0, z: 0 }
    }

    pub fn plus(self, o: Vec3i) -> (r: Vec3i)
        requires
            i32::MIN <= self.x + o.x <= i32::MAX,
            i32::MIN <= self.y + o.y <= i32::MAX,
            i32::MIN <= self.z + o.z <= i32::MAX,
        ensures
            r == self.spec_plus(o),
            r.x == self.x + o.x,
            r.y == self.y + o.y,
            r.z == self.z + o.z,
    {
        Vec3i { x: self.x + o.x, y: self.y + o.y, z: self.z + o.z }
    }

    pub fn minus(self, o: Vec3i) -> (r: Vec3i)
        requires
            i32::MIN <= self.x - o.x <= i32::MAX,
            i32::MIN <= self.y - o.y <= i32::MAX,
            i32::MIN <= self.z - o.z <= i32::MAX,
        ensures
            r == self.spec_minus(o),
            r.x == self.x - o.x,
            r.y == self.y - o.y,
            r.z == self.z - o.z,
    {
        Vec3i { x: self.x - o.x, y: self.y - o.y, z: self.z - o.z }
    }
}

} // verus!
