use selection_box::aabb::Aabb;
use selection_box::dispatch::ActorInfo;
use selection_box::messages::{
    ActorChange, MapChange, OutboundMessage, TileData, ToolBoxKind, TurnDir,
};
use selection_box::session::ClientSession;
use selection_box::vec3::Vec3i;

fn v(x: i32, y: i32, z: i32) -> Vec3i {
    Vec3i { x, y, z }
}

fn aabb(center: Vec3i, dimensions: Vec3i) -> Aabb {
    Aabb { center, dimensions }
}

fn actor_session(client_id: u32) -> ClientSession {
    let mut s = ClientSession::new(client_id, 42);
    s.activate(ToolBoxKind::Actor);
    s
}

/// One rotate-right composes a clockwise quarter turn and swaps the
/// horizontal dimensions: a (2,1,3) box becomes (3,1,2).
#[test]
fn rotate_right_swaps_horizontal_dimensions() {
    let mut s = actor_session(3);
    s.update_chosen_actor(42, aabb(v(0, 0, 0), v(2, 1, 3)));
    let msg = s.actor_tool_rotation(TurnDir::Right);
    assert_eq!(msg, Some(OutboundMessage::ActorToolRotation { client_id: 3, turn: TurnDir::Right }));
    assert_eq!(s.actor.selection_box.aabb.dimensions, v(3, 1, 2));
    assert_eq!(s.actor_rotation.turns, 3);
}

/// Four quarter turns come back to the identity rotation and bounds.
#[test]
fn four_turns_compose_to_identity() {
    let mut s = actor_session(3);
    s.update_chosen_actor(42, aabb(v(0, 0, 0), v(2, 1, 3)));
    for _ in 0..4 {
        s.actor_tool_rotation(TurnDir::Left);
    }
    assert_eq!(s.actor_rotation.turns, 0);
    assert_eq!(s.actor.selection_box.aabb.dimensions, v(2, 1, 3));
}

/// Rotation only drives an active actor box.
#[test]
fn rotation_needs_the_actor_box_active() {
    let mut s = ClientSession::new(3, 42);
    s.activate(ToolBoxKind::Terrain);
    let before = s.clone();
    assert_eq!(s.actor_tool_rotation(TurnDir::Left), None);
    assert_eq!(s, before);
}

/// Choosing a palette actor replaces the preview and takes the prototype's
/// bounds, turned by the rotation accumulated so far.
#[test]
fn chosen_actor_takes_rotated_prototype_bounds() {
    let mut s = actor_session(3);
    s.actor_tool_rotation(TurnDir::Right);
    let msg = s.update_chosen_actor(9, aabb(v(1, 0, 1), v(4, 2, 6)));
    assert_eq!(msg, OutboundMessage::ActorToolSelection { client_id: 3, actor_id: 9 });
    assert_eq!(s.preview_actor, Some(9));
    assert_eq!(s.actor.selection_box.aabb, aabb(v(1, 0, 1), v(6, 2, 4)));
}

#[test]
fn insertion_needs_active_actor_box_and_preview() {
    let mut s = actor_session(3);
    assert_eq!(s.actor_insertion_request(vec![1, 2]), None);
    s.update_chosen_actor(9, aabb(v(0, 0, 0), v(1, 1, 1)));
    let msg = s.actor_insertion_request(vec![1, 2]);
    assert_eq!(
        msg,
        Some(OutboundMessage::ActorChange {
            change: ActorChange::ActorInsertion { serialized: vec![1, 2] },
            store_history: 3,
        })
    );
    s.activate(ToolBoxKind::Terrain);
    assert_eq!(s.actor_insertion_request(vec![1, 2]), None);
}

/// Removal stages one request per intersecting actor that has an
/// identifier, in report order.
#[test]
fn removal_filters_by_intersection_and_identifier() {
    let mut s = actor_session(3);
    s.update_chosen_actor(9, aabb(v(0, 0, 0), v(3, 1, 3)));
    // The tool box sits at the origin, three cells wide on X and Z.
    let reported = vec![
        ActorInfo { actor_id: Some(11), bounds: aabb(v(1, 0, 0), v(1, 1, 1)) },
        ActorInfo { actor_id: None, bounds: aabb(v(0, 0, 0), v(1, 1, 1)) },
        ActorInfo { actor_id: Some(12), bounds: aabb(v(10, 0, 0), v(1, 1, 1)) },
        ActorInfo { actor_id: Some(13), bounds: aabb(v(-1, 0, 1), v(2, 2, 2)) },
    ];
    let msgs = s.actor_removal_requests(&reported);
    assert_eq!(
        msgs,
        vec![
            OutboundMessage::ActorChange {
                change: ActorChange::ActorRemoval(11),
                store_history: 3,
            },
            OutboundMessage::ActorChange {
                change: ActorChange::ActorRemoval(13),
                store_history: 3,
            },
        ]
    );
}

#[test]
fn removal_needs_the_actor_box_active() {
    let mut s = ClientSession::new(3, 42);
    s.activate(ToolBoxKind::Terrain);
    let reported = vec![ActorInfo { actor_id: Some(11), bounds: aabb(v(0, 0, 0), v(1, 1, 1)) }];
    assert_eq!(s.actor_removal_requests(&reported), vec![]);
}

/// A valid tile insertion is staged over the active terrain box with the
/// selected tile; a rejected one is dropped silently.
#[test]
fn tile_insertion_staged_only_when_valid() {
    let mut s = ClientSession::new(5, 0);
    s.activate(ToolBoxKind::Terrain);
    let tile = TileData { tile: 4, offset: v(0, 0, 0) };
    let candidate = s.tile_change_candidate(Some(tile));
    assert_eq!(
        candidate,
        Some(MapChange::MapInsertion { aabb: aabb(v(0, 0, 0), v(1, 1, 1)), tile_data: tile })
    );
    let accepted = s.tile_change_request(Some(tile), true);
    assert_eq!(
        accepted,
        Some(OutboundMessage::MapChange { change: candidate.unwrap(), store_history: 5 })
    );
    assert_eq!(s.tile_change_request(Some(tile), false), None);
}

#[test]
fn tile_removal_covers_the_terrain_box() {
    let mut s = ClientSession::new(5, 0);
    s.activate(ToolBoxKind::Terrain);
    s.apply_confirmation(v(2, 0, 2), v(3, 1, 3));
    let msg = s.tile_change_request(None, true);
    assert_eq!(
        msg,
        Some(OutboundMessage::MapChange {
            change: MapChange::MapRemoval(aabb(v(2, 0, 2), v(3, 1, 3))),
            store_history: 5,
        })
    );
}

#[test]
fn tile_actions_need_the_terrain_box_active() {
    let mut s = ClientSession::new(5, 0);
    s.activate(ToolBoxKind::Actor);
    assert_eq!(s.tile_change_candidate(None), None);
    assert_eq!(s.tile_change_request(None, true), None);
}
