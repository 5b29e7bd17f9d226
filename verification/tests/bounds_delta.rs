use selection_box::aabb::Aabb;
use selection_box::axis::CameraAdjustedDirection;
use selection_box::delta::{expansion_delta, expansion_movement_helper, movement_delta, InputDir};
use selection_box::vec3::Vec3i;

fn v(x: i32, y: i32, z: i32) -> Vec3i {
    Vec3i { x, y, z }
}

/// Basis after resolving a camera that faces +Z.
fn facing_z() -> CameraAdjustedDirection {
    CameraAdjustedDirection { forward: v(0, 0, 1), right: v(-1, 0, 0) }
}

#[test]
fn movement_follows_signed_axes() {
    let b = facing_z();
    assert_eq!(movement_delta(InputDir::Forward, &b), v(0, 0, 1));
    assert_eq!(movement_delta(InputDir::Back, &b), v(0, 0, -1));
    assert_eq!(movement_delta(InputDir::Right, &b), v(-1, 0, 0));
    assert_eq!(movement_delta(InputDir::Left, &b), v(1, 0, 0));
    assert_eq!(movement_delta(InputDir::Up, &b), v(0, 1, 0));
    assert_eq!(movement_delta(InputDir::Down, &b), v(0, -1, 0));
}

#[test]
fn movement_follows_a_turned_camera() {
    let b = CameraAdjustedDirection { forward: v(-1, 0, 0), right: v(0, 0, -1) };
    assert_eq!(movement_delta(InputDir::Forward, &b), v(-1, 0, 0));
    assert_eq!(movement_delta(InputDir::Right, &b), v(0, 0, -1));
}

#[test]
fn expansion_follows_absolute_axes() {
    let b = facing_z();
    assert_eq!(expansion_delta(InputDir::Forward, &b), v(0, 0, 1));
    assert_eq!(expansion_delta(InputDir::Back, &b), v(0, 0, -1));
    assert_eq!(expansion_delta(InputDir::Right, &b), v(1, 0, 0));
    assert_eq!(expansion_delta(InputDir::Left, &b), v(-1, 0, 0));
    let turned = CameraAdjustedDirection { forward: v(-1, 0, 0), right: v(0, 0, -1) };
    assert_eq!(expansion_delta(InputDir::Forward, &turned), v(1, 0, 0));
    assert_eq!(expansion_delta(InputDir::Right, &turned), v(0, 0, 1));
}

/// Starting from a zero-width X axis, one +1 expansion yields width 2.
#[test]
fn expansion_zero_crossing_doubles() {
    let mut aabb = Aabb { center: v(0, 0, 0), dimensions: v(0, 1, 1) };
    expansion_movement_helper(v(1, 0, 0), &facing_z(), &mut aabb);
    assert_eq!(aabb.dimensions, v(2, 1, 1));
}

/// Shrinking a one-wide axis crosses zero and re-seeds it at minus two.
#[test]
fn expansion_crossing_zero_reseeds_negative() {
    let mut aabb = Aabb { center: v(0, 0, 0), dimensions: v(1, 1, 1) };
    expansion_movement_helper(v(-1, 0, 0), &facing_z(), &mut aabb);
    assert_eq!(aabb.dimensions, v(-2, 1, 1));
}

/// With the camera facing +Z the resolved right axis points to negative X,
/// so growing to the right anchors the origin: the translation is zero.
#[test]
fn expansion_anchor_with_negative_right_x() {
    let mut aabb = Aabb { center: v(0, 0, 0), dimensions: v(1, 1, 1) };
    let diff = expansion_movement_helper(v(1, 0, 0), &facing_z(), &mut aabb);
    assert_eq!(aabb.dimensions, v(2, 1, 1));
    assert_eq!(diff, v(0, 0, 0));
}

/// With a positive right axis the same growth shifts the box instead.
#[test]
fn expansion_anchor_with_positive_right_x() {
    let b = CameraAdjustedDirection { forward: v(0, 0, -1), right: v(1, 0, 0) };
    let mut aabb = Aabb { center: v(0, 0, 0), dimensions: v(1, 1, 1) };
    let diff = expansion_movement_helper(v(1, 0, 0), &b, &mut aabb);
    assert_eq!(aabb.dimensions, v(2, 1, 1));
    assert_eq!(diff, v(-1, 0, 0));
}

/// Anchor regression: the anchored corner's world position is unchanged
/// across a run of expansions with a fixed camera-right sign.
#[test]
fn anchor_corner_never_moves_across_a_run() {
    let basis = facing_z();
    let mut aabb = Aabb { center: v(0, 0, 0), dimensions: v(1, 1, 1) };
    let mut origin = v(0, 0, 0);
    // Camera right points to negative X: the anchor is the high-X corner.
    let anchor_before = origin.x + aabb.get_max().x;
    for _ in 0..5 {
        let diff = expansion_movement_helper(v(1, 0, 0), &basis, &mut aabb);
        origin = Vec3i { x: origin.x - diff.x, y: origin.y - diff.y, z: origin.z - diff.z };
    }
    assert_eq!(aabb.dimensions, v(6, 1, 1));
    assert_eq!(origin.x + aabb.get_max().x, anchor_before);
}
