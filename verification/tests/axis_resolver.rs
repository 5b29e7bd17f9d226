use selection_box::axis::{resolve_axes, CameraAdjustedDirection};
use selection_box::vec3::Vec3i;

const SCALE: i64 = 1_000_000;

fn right_of(forward: Vec3i) -> Vec3i {
    Vec3i { x: -forward.z, y: 0, z: forward.x }
}

#[test]
fn facing_positive_z_snaps_to_positive_z() {
    let b = resolve_axes(0, SCALE, -SCALE, 0);
    assert_eq!(b.forward, Vec3i { x: 0, y: 0, z: 1 });
    assert_eq!(b.right, Vec3i { x: -1, y: 0, z: 0 });
}

#[test]
fn facing_positive_x_snaps_to_positive_x() {
    let b = resolve_axes(SCALE, 0, 0, SCALE);
    assert_eq!(b.forward, Vec3i { x: 1, y: 0, z: 0 });
    assert_eq!(b.right, Vec3i { x: 0, y: 0, z: 1 });
}

#[test]
fn facing_negative_z_snaps_to_negative_z() {
    let b = resolve_axes(0, -SCALE, SCALE, 0);
    assert_eq!(b.forward, Vec3i { x: 0, y: 0, z: -1 });
    assert_eq!(b.right, Vec3i { x: 1, y: 0, z: 0 });
}

#[test]
fn facing_negative_x_snaps_to_negative_x() {
    let b = resolve_axes(-SCALE, 0, 0, -SCALE);
    assert_eq!(b.forward, Vec3i { x: -1, y: 0, z: 0 });
    assert_eq!(b.right, Vec3i { x: 0, y: 0, z: -1 });
}

/// Exactly on the 45-degree diagonal between +Z and +X the hysteresis bias
/// keeps the decision on +Z instead of flickering.
#[test]
fn diagonal_still_resolves_to_one_cardinal_axis() {
    let b = resolve_axes(707_107, 707_107, -707_107, 707_107);
    assert_eq!(b.forward, Vec3i { x: 0, y: 0, z: 1 });
    assert_eq!(b.right, right_of(b.forward));
}

/// The right axis is always the forward axis turned a quarter clockwise,
/// whatever the camera hands in.
#[test]
fn right_is_always_forward_rotated_minus_ninety() {
    let samples: Vec<(i64, i64, i64, i64)> = vec![
        (0, SCALE, -SCALE, 0),
        (SCALE, 0, 0, SCALE),
        (123_456, -654_321, 654_321, 123_456),
        (-1, -1, 1, -1),
        (0, 0, 0, 0),
        (999_999, 1, -1, 999_999),
    ];
    for (fx, fz, rx, rz) in samples {
        let b = resolve_axes(fx, fz, rx, rz);
        let f = b.forward;
        let cardinal = [
            Vec3i { x: 0, y: 0, z: 1 },
            Vec3i { x: 0, y: 0, z: -1 },
            Vec3i { x: 1, y: 0, z: 0 },
            Vec3i { x: -1, y: 0, z: 0 },
        ];
        assert!(cardinal.contains(&f));
        assert_eq!(b.right, right_of(f));
        assert_eq!(f.x * b.right.x + f.z * b.right.z, 0);
    }
}

/// Resolving the same camera input twice yields an identical basis.
#[test]
fn resolution_is_idempotent() {
    let first: CameraAdjustedDirection = resolve_axes(314_159, -271_828, 271_828, 314_159);
    let second = resolve_axes(314_159, -271_828, 271_828, 314_159);
    assert_eq!(first, second);
}
