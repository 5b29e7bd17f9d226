//! Snapping a continuous camera orientation to a grid basis.
//!
//! The camera hands in its horizontal view vector and its right vector as
//! fixed-point integers (any common scale; only signs and ratios matter).
//! The resolver picks, among the four horizontal cardinal axes, the one
//! closest to the view vector, with a deliberate bias: before the closeness
//! comparison the view vector is rotated by 1/16 of a turn, in the direction
//! given by the candidates' projection onto the right vector. That pushes the
//! decision boundary away from the exact diagonal, so camera jitter near 45
//! degrees does not flicker the chosen axis. The right axis is never computed
//! independently: it is always the chosen forward axis rotated a quarter turn
//! clockwise about the up axis, so the pair stays orthogonal.

use vstd::prelude::*;
use crate::vec3::Vec3i;

verus! {

/// cos(pi/8), in hundred-thousandths.
pub const COS_PI_8: i64 = 92388;

/// sin(pi/8), in hundred-thousandths.
pub const SIN_PI_8: i64 = 38268;

/// Largest magnitude accepted for a fixed-point camera vector component.
pub const CAMERA_LIMIT: i64 = 1_000_000_000_000;

/// The grid-snapped forward/right pair cached for a selection volume.
#[derive(Clone, Copy, Debug, PartialEq, Eq, Structural)]
pub struct CameraAdjustedDirection {
    pub forward: Vec3i,
    pub right: Vec3i,
}

impl Default for CameraAdjustedDirection {
    /// Before the first camera update a volume faces positive Z.
    fn default() -> (r: CameraAdjustedDirection)
        ensures
            r.forward == (Vec3i { x: 0, y: 0, z: 1 }),
            r.right == (Vec3i { x: 1, y: 0, z: 0 }),
    {
        CameraAdjustedDirection {
            forward: Vec3i { x: 0, y: 0, z: 1 },
            right: Vec3i { x: 1, y: 0, z: 0 },
        }
    }
}

/// One of the four horizontal unit axes.
pub open spec fn is_cardinal(v: Vec3i) -> bool {
    ||| v == (Vec3i { x: 0, y: 0, z: 1 })
    ||| v == (Vec3i { x: 0, y: 0, z: -1i32 })
    ||| v == (Vec3i { x: 1, y: 0, z: 0 })
    ||| v == (Vec3i { x: -1i32, y: 0, z: 0 })
}

/// `v` rotated a quarter turn clockwise (seen from above) about the up axis.
pub open spec fn right_of(v: Vec3i) -> Vec3i {
    Vec3i { x: (-v.z) as i32, y: 0, z: v.x }
}

/// Horizontal dot product of an axis candidate `(ax, az)` with `(vx, vz)`.
pub open spec fn axis_dot(ax: int, az: int, vx: int, vz: int) -> int {
    ax * vx + az * vz
}

/// Direction of the hysteresis rotation: the sign of the smaller of the two
/// candidates' projections onto the camera right vector.
pub open spec fn hysteresis_dir(a_dot: int, b_dot: int) -> int {
    let dot = if a_dot < b_dot {
        a_dot
    } else {
        b_dot
    };
    if dot < 0 {
        -1
    } else {
        1
    }
}

/// X component of the view vector rotated by `dir` sixteenths of a turn,
/// scaled by a hundred thousand.
pub open spec fn adjusted_fx(fx: int, fz: int, dir: int) -> int {
    fx * COS_PI_8 + fz * SIN_PI_8 * dir
}

/// Z component of the same rotated view vector.
pub open spec fn adjusted_fz(fx: int, fz: int, dir: int) -> int {
    -fx * SIN_PI_8 * dir + fz * COS_PI_8
}

/// Whether candidate `(ax, az)` is at least as close to the adjusted view
/// vector as candidate `(bx, bz)`.
pub open spec fn first_closer(
    ax: int,
    az: int,
    bx: int,
    bz: int,
    fx: int,
    fz: int,
    rx: int,
    rz: int,
) -> bool {
    let dir = hysteresis_dir(axis_dot(ax, az, rx, rz), axis_dot(bx, bz, rx, rz));
    let gx = adjusted_fx(fx, fz, dir);
    let gz = adjusted_fz(fx, fz, dir);
    axis_dot(ax, az, gx, gz) >= axis_dot(bx, bz, gx, gz)
}

/// The winner of one comparison round.
pub open spec fn pick_axis(
    ax: int,
    az: int,
    bx: int,
    bz: int,
    fx: int,
    fz: int,
    rx: int,
    rz: int,
) -> (int, int) {
    if first_closer(ax, az, bx, bz, fx, fz, rx, rz) {
        (ax, az)
    } else {
        (bx, bz)
    }
}

/// The forward axis chosen by the tournament over the four candidates:
/// X against -X, the winner against -Z, that winner against Z.
pub open spec fn resolved_forward(fx: int, fz: int, rx: int, rz: int) -> (int, int) {
    let w1 = pick_axis(1, 0, -1, 0, fx, fz, rx, rz);
    let w2 = pick_axis(0, -1, w1.0, w1.1, fx, fz, rx, rz);
    pick_axis(0, 1, w2.0, w2.1, fx, fz, rx, rz)
}

/// The full resolved basis for a camera input.
pub open spec fn resolved_basis(fx: int, fz: int, rx: int, rz: int) -> CameraAdjustedDirection {
    let f = resolved_forward(fx, fz, rx, rz);
    let fv = Vec3i { x: f.0 as i32, y: 0, z: f.1 as i32 };
    CameraAdjustedDirection { forward: fv, right: right_of(fv) }
}

/// The tournament always lands on a cardinal axis, and the derived right
/// vector is the forward vector turned a quarter clockwise, hence the two
/// are orthogonal for every camera input.
pub proof fn lemma_resolved_basis_cardinal(fx: int, fz: int, rx: int, rz: int)
    ensures
        is_cardinal(resolved_basis(fx, fz, rx, rz).forward),
        resolved_basis(fx, fz, rx, rz).right == right_of(resolved_basis(fx, fz, rx, rz).forward),
        resolved_basis(fx, fz, rx, rz).forward.x * resolved_basis(fx, fz, rx, rz).right.x
            + resolved_basis(fx, fz, rx, rz).forward.z * resolved_basis(fx, fz, rx, rz).right.z
            == 0,
{
    let f = resolved_basis(fx, fz, rx, rz).forward;
    assert(is_cardinal(f));
    assert(f.z == 1 || f.z == -1 || f.x == 1 || f.x == -1);
    assert(f.x * (-f.z) + f.z * f.x == 0) by (nonlinear_arith);
}

/// One exec comparison round, mirroring `pick_axis`.
fn pick_axis_exec(
    ax: i64,
    az: i64,
    bx: i64,
    bz: i64,
    fx: i64,
    fz: i64,
    rx: i64,
    rz: i64,
) -> (r: (i64, i64))
    requires
        -1 <= ax <= 1,
        -1 <= az <= 1,
        -1 <= bx <= 1,
        -1 <= bz <= 1,
        -CAMERA_LIMIT <= fx <= CAMERA_LIMIT,
        -CAMERA_LIMIT <= fz <= CAMERA_LIMIT,
        -CAMERA_LIMIT <= rx <= CAMERA_LIMIT,
        -CAMERA_LIMIT <= rz <= CAMERA_LIMIT,
    ensures
        (r.0 as int, r.1 as int) == pick_axis(
            ax as int,
            az as int,
            bx as int,
            bz as int,
            fx as int,
            fz as int,
            rx as int,
            rz as int,
        ),
{
    let a_dot = ax * rx + az * rz;
    let b_dot = bx * rx + bz * rz;
    let dot = if a_dot < b_dot {
        a_dot
    } else {
        b_dot
    };
    let dir: i64 = if dot < 0 {
        -1
    } else {
        1
    };
    let gx = fx * COS_PI_8 + fz * SIN_PI_8 * dir;
    let gz = -fx * SIN_PI_8 * dir + fz * COS_PI_8;
    let a_f = ax * gx + az * gz;
    let b_f = bx * gx + bz * gz;
    if a_f >= b_f {
        (ax, az)
    } else {
        (bx, bz)
    }
}

/// Resolve a camera's fixed-point horizontal view and right vectors into the
/// grid-snapped basis.
pub fn resolve_axes(fx: i64, fz: i64, rx: i64, rz: i64) -> (b: CameraAdjustedDirection)
    requires
        -CAMERA_LIMIT <= fx <= CAMERA_LIMIT,
        -CAMERA_LIMIT <= fz <= CAMERA_LIMIT,
        -CAMERA_LIMIT <= rx <= CAMERA_LIMIT,
        -CAMERA_LIMIT <= rz <= CAMERA_LIMIT,
    ensures
        b == resolved_basis(fx as int, fz as int, rx as int, rz as int),
        is_cardinal(b.forward),
        b.right == right_of(b.forward),
{
    let w1 = pick_axis_exec(1, 0, -1, 0, fx, fz, rx, rz);
    let w2 = pick_axis_exec(0, -1, w1.0, w1.1, fx, fz, rx, rz);
    let w3 = pick_axis_exec(0, 1, w2.0, w2.1, fx, fz, rx, rz);
    let forward = Vec3i { x: w3.0 as i32, y: 0, z: w3.1 as i32 };
    let right = Vec3i { x: -forward.z, y: 0, z: forward.x };
    proof {
        lemma_resolved_basis_cardinal(fx as int, fz as int, rx as int, rz as int);
    }
    CameraAdjustedDirection { forward, right }
}

} // verus!
