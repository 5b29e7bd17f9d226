use selection_box::messages::{OutboundMessage, ToolBoxKind, ToolBoxType};
use selection_box::session::ActorToolBox;
use selection_box::vec3::Vec3i;
use selection_box::workspace::Workspace;

fn v(x: i32, y: i32, z: i32) -> Vec3i {
    Vec3i { x, y, z }
}

#[test]
fn initialization_creates_one_session_per_client() {
    let mut w = Workspace::new();
    let a = w.initialize_selection_box(1, ToolBoxType::TerrainToolBox);
    let b = w.initialize_selection_box(1, ToolBoxType::ActorToolBox(42));
    let c = w.initialize_selection_box(2, ToolBoxType::TerrainToolBox);
    assert_eq!(a, b);
    assert_ne!(a, c);
    assert_eq!(w.sessions.len(), 2);
    assert_eq!(w.sessions[a].actor_tag, ActorToolBox(42));
    assert_eq!(w.sessions[a].actor_tag.get_selection(), 42);
}

#[test]
fn lookup_by_client_id() {
    let mut w = Workspace::new();
    w.initialize_selection_box(1, ToolBoxType::TerrainToolBox);
    w.initialize_selection_box(2, ToolBoxType::TerrainToolBox);
    assert_eq!(w.get_box_entity_by_client_id(2), Some(1));
    assert_eq!(w.get_box_entity_by_client_id(9), None);
}

/// A successful activation moves the mark and emits exactly one notice; a
/// client without volumes is ignored entirely.
#[test]
fn activation_is_guarded_and_exclusive() {
    let mut w = Workspace::new();
    assert_eq!(w.activate_tool_box(1, ToolBoxKind::Terrain), None);
    w.initialize_selection_box(1, ToolBoxType::TerrainToolBox);
    let msg = w.activate_tool_box(1, ToolBoxKind::Terrain);
    assert_eq!(msg, Some(OutboundMessage::ActivateTerrainToolBox { client_id: 1 }));
    assert_eq!(w.sessions[0].active, Some(ToolBoxKind::Terrain));
    let msg = w.activate_tool_box(1, ToolBoxKind::Actor);
    assert_eq!(msg, Some(OutboundMessage::ActivateActorToolBox { client_id: 1 }));
    // The terrain box lost the mark when the actor box took it.
    assert_eq!(w.sessions[0].active, Some(ToolBoxKind::Actor));
}

/// A confirmation reaches only the session of the client it names; one for
/// an unknown client changes nothing.
#[test]
fn confirmation_is_routed_by_client_id() {
    let mut w = Workspace::new();
    w.initialize_selection_box(1, ToolBoxType::TerrainToolBox);
    w.initialize_selection_box(2, ToolBoxType::TerrainToolBox);
    w.activate_tool_box(1, ToolBoxKind::Terrain);
    w.apply_confirmation(1, v(3, 0, 3), v(2, 2, 2));
    assert_eq!(w.sessions[0].terrain.coord_pos, v(3, 0, 3));
    assert_eq!(w.sessions[0].terrain.selection_box.aabb.dimensions, v(2, 2, 2));
    assert_eq!(w.sessions[1].terrain.coord_pos, v(0, 0, 0));
    w.apply_confirmation(9, v(8, 8, 8), v(8, 8, 8));
    assert_eq!(w.sessions[0].terrain.coord_pos, v(3, 0, 3));
    assert_eq!(w.sessions[1].terrain.coord_pos, v(0, 0, 0));
}

#[test]
fn set_active_selection_box_ignores_unknown_clients() {
    let mut w = Workspace::new();
    w.initialize_selection_box(1, ToolBoxType::TerrainToolBox);
    w.set_active_selection_box(9, ToolBoxKind::Actor);
    assert_eq!(w.sessions[0].active, None);
    w.set_active_selection_box(1, ToolBoxKind::Actor);
    assert_eq!(w.sessions[0].active, Some(ToolBoxKind::Actor));
}

#[test]
fn free_all_removes_every_session() {
    let mut w = Workspace::new();
    w.initialize_selection_box(1, ToolBoxType::TerrainToolBox);
    w.initialize_selection_box(2, ToolBoxType::TerrainToolBox);
    w.free_all();
    assert_eq!(w.sessions.len(), 0);
}

#[test]
fn sessions_can_be_driven_through_the_registry() {
    let mut w = Workspace::new();
    let i = w.initialize_selection_box(1, ToolBoxType::TerrainToolBox);
    w.activate_tool_box(1, ToolBoxKind::Terrain);
    let s = w.session_at_mut(i);
    let msg = s.apply_movement(v(0, 0, 1));
    assert!(msg.is_some());
    assert_eq!(w.sessions[i].terrain.coord_pos, v(0, 0, 1));
}
