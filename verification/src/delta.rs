//! Turning discrete directional input into integer bounds deltas.
//!
//! A directional input is first mapped to a camera-local delta, then carried
//! into grid space through the resolved basis: movement follows the signed
//! basis axes, expansion follows their absolute values so a box always grows
//! along true grid axes whatever way the camera faces. Resizing is anchored:
//! the translation returned by [`expansion_movement_helper`] keeps the box
//! corner nearest the camera's back fixed while the opposite corner moves.

use vstd::prelude::*;
use crate::aabb::{Aabb, max_off, min_off};
use crate::axis::{CameraAdjustedDirection, is_cardinal};
use crate::vec3::{GRID_LIMIT, Vec3i};

verus! {

/// One of the six discrete directional inputs.
#[derive(Clone, Copy, Debug, PartialEq, Eq, Structural)]
pub enum InputDir {
    Forward,
    Back,
    Left,
    Right,
    Up,
    Down,
}

/// Both cached axes are horizontal unit axes.
pub open spec fn basis_cardinal(b: CameraAdjustedDirection) -> bool {
    is_cardinal(b.forward) && is_cardinal(b.right)
}

/// The grid-space translation of one movement input under a basis:
/// forward/back follow the signed forward axis, left/right the signed right
/// axis, up/down pass through vertically.
pub open spec fn movement_delta_spec(dir: InputDir, b: CameraAdjustedDirection) -> Vec3i {
    match dir {
        InputDir::Forward => Vec3i { x: b.forward.x, y: 0, z: b.forward.z },
        InputDir::Back => Vec3i { x: (-b.forward.x) as i32, y: 0, z: (-b.forward.z) as i32 },
        InputDir::Left => Vec3i { x: (-b.right.x) as i32, y: 0, z: (-b.right.z) as i32 },
        InputDir::Right => Vec3i { x: b.right.x, y: 0, z: b.right.z },
        InputDir::Up => Vec3i { x: 0, y: 1, z: 0 },
        InputDir::Down => Vec3i { x: 0, y: -1i32, z: 0 },
    }
}

/// The per-axis dimension delta of one expansion input under a basis: as
/// movement, but along the basis axes' absolute directions, so a box grows
/// along true grid axes whatever the facing sign.
pub open spec fn expansion_delta_spec(dir: InputDir, b: CameraAdjustedDirection) -> Vec3i {
    let fax = crate::aabb::abs_i(b.forward.x as int) as i32;
    let faz = crate::aabb::abs_i(b.forward.z as int) as i32;
    let rax = crate::aabb::abs_i(b.right.x as int) as i32;
    let raz = crate::aabb::abs_i(b.right.z as int) as i32;
    match dir {
        InputDir::Forward => Vec3i { x: fax, y: 0, z: faz },
        InputDir::Back => Vec3i { x: (-fax) as i32, y: 0, z: (-faz) as i32 },
        InputDir::Left => Vec3i { x: (-rax) as i32, y: 0, z: (-raz) as i32 },
        InputDir::Right => Vec3i { x: rax, y: 0, z: raz },
        InputDir::Up => Vec3i { x: 0, y: 1, z: 0 },
        InputDir::Down => Vec3i { x: 0, y: -1i32, z: 0 },
    }
}

/// Map a movement input to its grid-space translation.
pub fn movement_delta(dir: InputDir, basis: &CameraAdjustedDirection) -> (r: Vec3i)
    requires
        basis_cardinal(*basis),
    ensures
        r == movement_delta_spec(dir, *basis),
        r.is_unit_delta(),
{
    match dir {
        InputDir::Forward => Vec3i { x: basis.forward.x, y: 0, z: basis.forward.z },
        InputDir::Back => Vec3i { x: -basis.forward.x, y: 0, z: -basis.forward.z },
        InputDir::Left => Vec3i { x: -basis.right.x, y: 0, z: -basis.right.z },
        InputDir::Right => Vec3i { x: basis.right.x, y: 0, z: basis.right.z },
        InputDir::Up => Vec3i { x: 0, y: 1, z: 0 },
        InputDir::Down => Vec3i { x: 0, y: -1, z: 0 },
    }
}

/// Map an expansion input to its per-axis dimension delta.
pub fn expansion_delta(dir: InputDir, basis: &CameraAdjustedDirection) -> (r: Vec3i)
    requires
        basis_cardinal(*basis),
    ensures
        r == expansion_delta_spec(dir, *basis),
        r.is_unit_delta(),
{
    let fax = if basis.forward.x < 0 {
        -basis.forward.x
    } else {
        basis.forward.x
    };
    let faz = if basis.forward.z < 0 {
        -basis.forward.z
    } else {
        basis.forward.z
    };
    let rax = if basis.right.x < 0 {
        -basis.right.x
    } else {
        basis.right.x
    };
    let raz = if basis.right.z < 0 {
        -basis.right.z
    } else {
        basis.right.z
    };
    match dir {
        InputDir::Forward => Vec3i { x: fax, y: 0, z: faz },
        InputDir::Back => Vec3i { x: -fax, y: 0, z: -faz },
        InputDir::Left => Vec3i { x: -rax, y: 0, z: -raz },
        InputDir::Right => Vec3i { x: rax, y: 0, z: raz },
        InputDir::Up => Vec3i { x: 0, y: 1, z: 0 },
        InputDir::Down => Vec3i { x: 0, y: -1, z: 0 },
    }
}

/// A dimension after one expansion delta. An axis at zero width, or one that
/// an expansion would bring to zero width, jumps to twice the delta instead,
/// escaping the zero-width state symmetrically.
pub open spec fn expanded_dim(d: int, e: int) -> int {
    if e != 0 && (d == 0 || d + e == 0) {
        2 * e
    } else {
        d + e
    }
}

/// The translation that keeps the anchor corner of one axis fixed across a
/// resize from dimension `d` to `nd`. `swap` holds when the camera-right
/// sign makes the far corner the anchor on this axis.
pub open spec fn axis_anchor_diff(d: int, nd: int, swap: bool) -> int {
    if swap {
        if nd < 0 {
            min_off(nd) - min_off(d)
        } else {
            max_off(nd) - max_off(d)
        }
    } else {
        if nd < 0 {
            max_off(nd) - max_off(d)
        } else {
            min_off(nd) - min_off(d)
        }
    }
}

/// One axis of the zero-crossing rule.
fn expand_dim(d: i32, e: i32) -> (r: i32)
    requires
        -GRID_LIMIT <= d <= GRID_LIMIT,
        -1 <= e <= 1,
    ensures
        r == expanded_dim(d as int, e as int),
        d == 0 && e != 0 ==> r == 2 * e,
{
    let nd = d + e;
    if e != 0 && (d == 0 || nd == 0) {
        2 * e
    } else {
        nd
    }
}

/// One axis of the anchor translation.
fn axis_diff(d: i32, nd: i32, swap: bool) -> (r: i32)
    requires
        -GRID_LIMIT <= d <= GRID_LIMIT,
        -GRID_LIMIT - 2 <= nd <= GRID_LIMIT + 2,
    ensures
        r == axis_anchor_diff(d as int, nd as int, swap),
{
    if swap {
        if nd < 0 {
            crate::aabb::axis_min_off(nd) - crate::aabb::axis_min_off(d)
        } else {
            crate::aabb::axis_max_off(nd) - crate::aabb::axis_max_off(d)
        }
    } else {
        if nd < 0 {
            crate::aabb::axis_max_off(nd) - crate::aabb::axis_max_off(d)
        } else {
            crate::aabb::axis_min_off(nd) - crate::aabb::axis_min_off(d)
        }
    }
}

/// Apply an expansion delta to a box in place and return the translation
/// that keeps the camera-relative anchor corner fixed. On the axes where the
/// camera-right vector points negative, the box's far corner is the anchor;
/// the vertical axis always anchors at its near corner.
pub fn expansion_movement_helper(
    expansion: Vec3i,
    camera_adjusted_dir: &CameraAdjustedDirection,
    new_aabb: &mut Aabb,
) -> (diff: Vec3i)
    requires
        old(new_aabb).in_grid(),
        expansion.is_unit_delta(),
    ensures
        final(new_aabb).center == old(new_aabb).center,
        final(new_aabb).dimensions.x == expanded_dim(
            old(new_aabb).dimensions.x as int,
            expansion.x as int,
        ),
        final(new_aabb).dimensions.y == expanded_dim(
            old(new_aabb).dimensions.y as int,
            expansion.y as int,
        ),
        final(new_aabb).dimensions.z == expanded_dim(
            old(new_aabb).dimensions.z as int,
            expansion.z as int,
        ),
        diff.x == axis_anchor_diff(
            old(new_aabb).dimensions.x as int,
            final(new_aabb).dimensions.x as int,
            camera_adjusted_dir.right.x < 0,
        ),
        diff.y == axis_anchor_diff(
            old(new_aabb).dimensions.y as int,
            final(new_aabb).dimensions.y as int,
            false,
        ),
        diff.z == axis_anchor_diff(
            old(new_aabb).dimensions.z as int,
            final(new_aabb).dimensions.z as int,
            camera_adjusted_dir.right.z < 0,
        ),
{
    let d = new_aabb.dimensions;
    let nd = Vec3i {
        x: expand_dim(d.x, expansion.x),
        y: expand_dim(d.y, expansion.y),
        z: expand_dim(d.z, expansion.z),
    };
    new_aabb.dimensions = nd;
    Vec3i {
        x: axis_diff(d.x, nd.x, camera_adjusted_dir.right.x < 0),
        y: axis_diff(d.y, nd.y, false),
        z: axis_diff(d.z, nd.z, camera_adjusted_dir.right.z < 0),
    }
}

/// Origin and dimension of one axis after a whole run of anchored
/// expansions, each applied as `expansion_movement_helper` applies it.
pub open spec fn axis_expansions_applied(origin: int, d: int, es: Seq<int>, swap: bool) -> (
    int,
    int,
) decreases es.len(),
{
    if es.len() == 0 {
        (origin, d)
    } else {
        let nd = expanded_dim(d, es[0]);
        let diff = axis_anchor_diff(d, nd, swap);
        axis_expansions_applied(origin - diff, nd, es.drop_first(), swap)
    }
}

/// Anchor invariant: across any sequence of non-shrinking expansions of an
/// axis of positive width, with a fixed camera-right sign, the anchor corner
/// never moves: the far corner when the camera-right sign is negative on
/// this axis, the near corner otherwise.
pub proof fn lemma_expansion_anchor_invariant(origin: int, d: int, es: Seq<int>, swap: bool)
    requires
        d >= 1,
        forall|i: int| 0 <= i < es.len() ==> es[i] >= 0,
    ensures
        axis_expansions_applied(origin, d, es, swap).1 >= 1,
        swap ==> axis_expansions_applied(origin, d, es, swap).0 + max_off(
            axis_expansions_applied(origin, d, es, swap).1,
        ) == origin + max_off(d),
        !swap ==> axis_expansions_applied(origin, d, es, swap).0 + min_off(
            axis_expansions_applied(origin, d, es, swap).1,
        ) == origin + min_off(d),
    decreases es.len(),
{
    if es.len() > 0 {
        let e = es[0];
        let nd = expanded_dim(d, e);
        assert(nd == d + e && nd >= 1);
        let diff = axis_anchor_diff(d, nd, swap);
        assert(forall|i: int|
            0 <= i < es.drop_first().len() ==> es.drop_first()[i] >= 0) by {
            assert(forall|i: int|
                0 <= i < es.drop_first().len() ==> es.drop_first()[i] == es[i + 1]);
        }
        lemma_expansion_anchor_invariant(origin - diff, nd, es.drop_first(), swap);
    }
}

} // verus!

