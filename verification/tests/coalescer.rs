use selection_box::delta::{expansion_delta, movement_delta, InputDir};
use selection_box::messages::{OutboundMessage, ToolBoxKind};
use selection_box::session::ClientSession;
use selection_box::vec3::Vec3i;

fn v(x: i32, y: i32, z: i32) -> Vec3i {
    Vec3i { x, y, z }
}

const SCALE: i64 = 1_000_000;

/// A fresh client session with the terrain box active and the camera
/// resolved facing +Z.
fn terrain_session(client_id: u32) -> ClientSession {
    let mut s = ClientSession::new(client_id, 0);
    s.activate(ToolBoxKind::Terrain);
    s.update_camera_basis(0, SCALE, -SCALE, 0);
    s
}

/// Client C at origin (0,0,0), dimensions (1,1,1), camera facing +Z; one
/// move-forward press emits one bounds update with origin (0,0,1) and the
/// pending correction targets (0,0,1).
#[test]
fn move_forward_once_end_to_end() {
    let mut s = terrain_session(7);
    let delta = movement_delta(InputDir::Forward, &s.camera_dir);
    let msg = s.apply_movement(delta);
    assert_eq!(
        msg,
        Some(OutboundMessage::UpdateSelectionBounds {
            client_id: 7,
            origin: v(0, 0, 1),
            dimensions: v(1, 1, 1),
        })
    );
    let pending = s.pending.expect("one pending correction");
    assert_eq!(pending.coord_pos, v(0, 0, 1));
    assert_eq!(s.terrain.coord_pos, v(0, 0, 1));
}

/// Two movement deltas before any confirmation: still one pending
/// correction, targeting the vector sum, and two outbound messages each
/// carrying the cumulative target.
#[test]
fn two_moves_coalesce_into_one_pending_correction() {
    let mut s = terrain_session(7);
    let delta = movement_delta(InputDir::Forward, &s.camera_dir);
    let first = s.apply_movement(delta);
    let second = s.apply_movement(delta);
    assert_eq!(
        first,
        Some(OutboundMessage::UpdateSelectionBounds {
            client_id: 7,
            origin: v(0, 0, 1),
            dimensions: v(1, 1, 1),
        })
    );
    assert_eq!(
        second,
        Some(OutboundMessage::UpdateSelectionBounds {
            client_id: 7,
            origin: v(0, 0, 2),
            dimensions: v(1, 1, 1),
        })
    );
    let pending = s.pending.expect("exactly one pending correction");
    assert_eq!(pending.coord_pos, v(0, 0, 2));
    // The live volume moved only on the first, idle, delta.
    assert_eq!(s.terrain.coord_pos, v(0, 0, 1));
}

/// Without an active box a delta is a no-op and nothing is emitted.
#[test]
fn movement_without_active_box_is_dropped() {
    let mut s = ClientSession::new(7, 0);
    let before = s.clone();
    let msg = s.apply_movement(v(0, 0, 1));
    assert_eq!(msg, None);
    assert_eq!(s, before);
}

/// One expand-right press with the camera facing +Z: dimensions become
/// (2,1,1) and the origin stays, growth anchored at the facing-left corner.
#[test]
fn expand_right_once_end_to_end() {
    let mut s = terrain_session(7);
    let delta = expansion_delta(InputDir::Right, &s.camera_dir);
    assert_eq!(delta, v(1, 0, 0));
    let msg = s.apply_expansion(delta);
    assert_eq!(
        msg,
        Some(OutboundMessage::UpdateSelectionBounds {
            client_id: 7,
            origin: v(0, 0, 0),
            dimensions: v(2, 1, 1),
        })
    );
    assert_eq!(s.terrain.selection_box.aabb.dimensions, v(2, 1, 1));
    assert_eq!(s.terrain.coord_pos, v(0, 0, 0));
}

/// Expansion only drives the terrain box.
#[test]
fn expansion_ignores_the_actor_box() {
    let mut s = ClientSession::new(7, 0);
    s.activate(ToolBoxKind::Actor);
    let before = s.clone();
    let msg = s.apply_expansion(v(1, 0, 0));
    assert_eq!(msg, None);
    assert_eq!(s, before);
}

/// A confirmation for the active volume updates origin and dimensions and
/// closes the pending correction.
#[test]
fn confirmation_for_active_volume_updates_both() {
    let mut s = terrain_session(7);
    let delta = movement_delta(InputDir::Forward, &s.camera_dir);
    s.apply_movement(delta);
    s.apply_confirmation(v(4, 0, 1), v(3, 2, 1));
    assert_eq!(s.terrain.coord_pos, v(4, 0, 1));
    assert_eq!(s.terrain.selection_box.aabb.dimensions, v(3, 2, 1));
    assert!(s.pending.is_none());
    // The inactive actor volume tracks the position but keeps its bounds.
    assert_eq!(s.actor.coord_pos, v(4, 0, 1));
    assert_eq!(s.actor.selection_box.aabb.dimensions, v(1, 1, 1));
}

/// A confirmation while the other kind is active leaves this volume's
/// dimensions untouched.
#[test]
fn confirmation_for_non_active_volume_keeps_dimensions() {
    let mut s = ClientSession::new(7, 0);
    s.activate(ToolBoxKind::Actor);
    s.apply_confirmation(v(2, 0, 2), v(5, 5, 5));
    assert_eq!(s.terrain.coord_pos, v(2, 0, 2));
    assert_eq!(s.terrain.selection_box.aabb.dimensions, v(1, 1, 1));
    assert_eq!(s.actor.selection_box.aabb.dimensions, v(5, 5, 5));
    assert!(s.pending.is_none());
}

/// While a confirmation is outstanding, movement folds into the pending
/// target and leaves the live volume where the first delta put it.
#[test]
fn movement_while_awaiting_only_touches_the_pending_target() {
    let mut s = terrain_session(7);
    let forward = movement_delta(InputDir::Forward, &s.camera_dir);
    s.apply_movement(forward);
    let live_after_first = s.terrain;
    s.apply_movement(forward);
    s.apply_movement(forward);
    assert_eq!(s.terrain, live_after_first);
    assert_eq!(s.pending.unwrap().coord_pos, v(0, 0, 3));
}
