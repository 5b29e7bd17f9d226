//! Axis-aligned integer bounding boxes.
//!
//! A box is stored as a center cell plus a dimensions vector. Dimension
//! components may be negative: the sign encodes which way the box faces,
//! while the occupied cells depend only on the magnitudes. The occupied
//! interval of an axis with center `c` and dimension `d` runs from
//! `c - |d|/2` to `c - |d|/2 + |d| - 1`, both cells inclusive.

use vstd::prelude::*;
use crate::vec3::Vec3i;

verus! {

pub open spec fn abs_i(d: int) -> int {
    if d < 0 {
        -d
    } else {
        d
    }
}

/// Offset of a box's least occupied cell from its center, on one axis.
pub open spec fn min_off(d: int) -> int {
    -(abs_i(d) / 2)
}

/// Offset of a box's greatest occupied cell from its center, on one axis.
pub open spec fn max_off(d: int) -> int {
    abs_i(d) - 1 - abs_i(d) / 2
}

/// Exchange the two horizontal components, as a quarter turn about the
/// vertical axis does to a box's dimensions.
pub open spec fn swap_xz(v: Vec3i) -> Vec3i {
    Vec3i { x: v.z, y: v.y, z: v.x }
}

/// An axis-aligned box of grid cells: a center cell and signed dimensions.
#[derive(Clone, Copy, Debug, PartialEq, Eq, Structural)]
pub struct Aabb {
    pub center: Vec3i,
    pub dimensions: Vec3i,
}

impl Aabb {
    pub open spec fn in_grid(self) -> bool {
        self.center.in_grid() && self.dimensions.in_grid()
    }

    pub open spec fn spec_min(self) -> Vec3i {
        Vec3i {
            x: (self.center.x + min_off(self.dimensions.x as int)) as i32,
            y: (self.center.y + min_off(self.dimensions.y as int)) as i32,
            z: (self.center.z + min_off(self.dimensions.z as int)) as i32,
        }
    }

    pub open spec fn spec_max(self) -> Vec3i {
        Vec3i {
            x: (self.center.x + max_off(self.dimensions.x as int)) as i32,
            y: (self.center.y + max_off(self.dimensions.y as int)) as i32,
            z: (self.center.z + max_off(self.dimensions.z as int)) as i32,
        }
    }

    /// The occupied cell intervals of the two boxes overlap on every axis.
    pub open spec fn spec_intersects(self, o: Aabb) -> bool {
        &&& self.spec_min().x <= o.spec_max().x && o.spec_min().x <= self.spec_max().x
        &&& self.spec_min().y <= o.spec_max().y && o.spec_min().y <= self.spec_max().y
        &&& self.spec_min().z <= o.spec_max().z && o.spec_min().z <= self.spec_max().z
    }

    pub fn new(center: Vec3i, dimensions: Vec3i) -> (r: Aabb)
        ensures
            r == (Aabb { center, dimensions }),
    {
        Aabb { center, dimensions }
    }

    /// Least occupied cell on each axis.
    pub fn get_min(&self) -> (r: Vec3i)
        requires
            self.in_grid(),
        ensures
            r == self.spec_min(),
    {
        Vec3i {
            x: self.center.x + axis_min_off(self.dimensions.x),
            y: self.center.y + axis_min_off(self.dimensions.y),
            z: self.center.z + axis_min_off(self.dimensions.z),
        }
    }

    /// Greatest occupied cell on each axis.
    pub fn get_max(&self) -> (r: Vec3i)
        requires
            self.in_grid(),
        ensures
            r == self.spec_max(),
    {
        Vec3i {
            x: self.center.x + axis_max_off(self.dimensions.x),
            y: self.center.y + axis_max_off(self.dimensions.y),
            z: self.center.z + axis_max_off(self.dimensions.z),
        }
    }

    /// Whether the occupied cells of `self` and `o` overlap.
    pub fn intersects(&self, o: &Aabb) -> (r: bool)
        requires
            self.in_grid(),
            o.in_grid(),
        ensures
            r == self.spec_intersects(*o),
    {
        let smin = self.get_min();
        let smax = self.get_max();
        let omin = o.get_min();
        let omax = o.get_max();
        smin.x <= omax.x && omin.x <= smax.x && smin.y <= omax.y && omin.y <= smax.y
            && smin.z <= omax.z && omin.z <= smax.z
    }

    /// The box after a quarter turn about the vertical axis through its own
    /// center: the horizontal dimensions trade places, the center stays.
    pub fn rotated_quarter_y(&self) -> (r: Aabb)
        ensures
            r.center == self.center,
            r.dimensions == swap_xz(self.dimensions),
    {
        Aabb {
            center: self.center,
            dimensions: Vec3i { x: self.dimensions.z, y: self.dimensions.y, z: self.dimensions.x },
        }
    }
}

/// `min_off` on one `i32` dimension.
pub(crate) fn axis_min_off(d: i32) -> (r: i32)
    requires
        i32::MIN < d,
    ensures
        r == min_off(d as int),
{
    let a: i32 = if d < 0 {
        -d
    } else {
        d
    };
    -(a / 2)
}

/// `max_off` on one `i32` dimension.
pub(crate) fn axis_max_off(d: i32) -> (r: i32)
    requires
        i32::MIN < d,
    ensures
        r == max_off(d as int),
{
    let a: i32 = if d < 0 {
        -d
    } else {
        d
    };
    a - 1 - a / 2
}

/// A client's selection bounding box for one tool kind.
#[derive(Clone, Copy, Debug, PartialEq, Eq, Structural)]
pub struct SelectionBox {
    pub aabb: Aabb,
}

impl SelectionBox {
    /// A box of one cell: center `(0,0,0)`, dimensions `(1,1,1)`.
    pub fn new() -> (r: SelectionBox)
        ensures
            r.aabb.center == (Vec3i { x: 0, y: 0, z: 0 }),
            r.aabb.dimensions == (Vec3i { x: 1, y: 1, z: 1 }),
    {
        SelectionBox {
            aabb: Aabb {
                center: Vec3i { x: 0, y: 0, z: 0 },
                dimensions: Vec3i { x: 1, y: 1, z: 1 },
            },
        }
    }

    pub fn from_aabb(aabb: Aabb) -> (r: SelectionBox)
        ensures
            r.aabb == aabb,
    {
        SelectionBox { aabb }
    }
}

} // verus!
