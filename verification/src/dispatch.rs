//! Tool actions: staging insert, remove, rotate and palette-choice change
//! requests from the active tool box.
//!
//! Rotation bypasses the update coalescer: a quarter turn composes into the
//! accumulated rotation, turns the box about its own center, and is
//! broadcast at once. Insertion and removal only describe what should
//! change; the engine layer performs the cloning, serialization and world
//! queries and hands plain values in. Terrain edits are validated outside:
//! a rejected candidate is dropped silently, with no local state change.

use vstd::prelude::*;
use crate::aabb::{swap_xz, Aabb, SelectionBox};
use crate::messages::{ActorChange, MapChange, OutboundMessage, TileData, ToolBoxKind, TurnDir};
use crate::session::{ClientSession, SelectionBoxRotation, VolumeState};
use crate::vec3::Vec3i;

verus! {

/// What the engine layer reports about one placed actor: its identifier, if
/// it has one, and its bounds.
#[derive(Clone, Copy, Debug, PartialEq, Eq, Structural)]
pub struct ActorInfo {
    pub actor_id: Option<i64>,
    pub bounds: Aabb,
}

/// The box a tool acts on: the volume's bounds placed at its position.
pub open spec fn tool_box_at(v: VolumeState) -> Aabb {
    Aabb { center: v.coord_pos, dimensions: v.selection_box.aabb.dimensions }
}

/// Quarter turns composed onto the accumulated rotation by one rotate
/// input: a left turn adds one counterclockwise quarter, a right turn one
/// clockwise quarter, kept below four.
pub open spec fn composed_turns(turns: u8, turn: TurnDir) -> u8 {
    match turn {
        TurnDir::Left => (((turns + 1) % 4) as u8),
        TurnDir::Right => (((turns + 3) % 4) as u8),
    }
}

/// One rotate input against a session. Only an active actor box rotates:
/// the turn composes into the accumulated rotation, the box's horizontal
/// dimensions trade places, and the rotation is broadcast at once; the
/// pending correction is not involved.
pub open spec fn rotation_step(s: ClientSession, turn: TurnDir) -> (
    ClientSession,
    Option<OutboundMessage>,
) {
    if s.active != Some(ToolBoxKind::Actor) {
        (s, None)
    } else {
        let rotated = Aabb {
            center: s.actor.selection_box.aabb.center,
            dimensions: swap_xz(s.actor.selection_box.aabb.dimensions),
        };
        (
            ClientSession {
                actor: VolumeState {
                    selection_box: SelectionBox { aabb: rotated },
                    coord_pos: s.actor.coord_pos,
                },
                actor_rotation: SelectionBoxRotation {
                    turns: composed_turns(s.actor_rotation.turns, turn),
                },
                ..s
            },
            Some(
                OutboundMessage::ActorToolRotation { client_id: s.client_id, turn },
            ),
        )
    }
}

/// A palette choice against a session: the new actor becomes the preview,
/// and the actor box takes the prototype's bounds turned by the rotation
/// accumulated so far (an odd number of quarter turns trades the horizontal
/// dimensions).
pub open spec fn chosen_actor_step(s: ClientSession, actor_id: i64, prototype: Aabb) -> (
    ClientSession,
    OutboundMessage,
) {
    let aabb = if s.actor_rotation.turns % 2 == 1 {
        Aabb { center: prototype.center, dimensions: swap_xz(prototype.dimensions) }
    } else {
        prototype
    };
    (
        ClientSession {
            actor: VolumeState {
                selection_box: SelectionBox { aabb },
                coord_pos: s.actor.coord_pos,
            },
            preview_actor: Some(actor_id),
            ..s
        },
        OutboundMessage::ActorToolSelection { client_id: s.client_id, actor_id },
    )
}

/// The removal requests staged for a list of placed actors: one per actor
/// that has an identifier and whose bounds intersect the tool box.
pub open spec fn removal_requests_rec(
    client_id: u32,
    tool_box: Aabb,
    infos: Seq<ActorInfo>,
) -> Seq<OutboundMessage>
    decreases infos.len(),
{
    if infos.len() == 0 {
        Seq::empty()
    } else {
        let rest = removal_requests_rec(client_id, tool_box, infos.drop_last());
        let last = infos.last();
        if last.actor_id is Some && tool_box.spec_intersects(last.bounds) {
            rest.push(
                OutboundMessage::ActorChange {
                    change: ActorChange::ActorRemoval(last.actor_id->0),
                    store_history: client_id,
                },
            )
        } else {
            rest
        }
    }
}

/// Removal requests for a whole session: none unless the actor box is
/// active.
pub open spec fn removal_requests_spec(s: ClientSession, infos: Seq<ActorInfo>) -> Seq<
    OutboundMessage,
> {
    if s.active != Some(ToolBoxKind::Actor) {
        Seq::empty()
    } else {
        removal_requests_rec(s.client_id, tool_box_at(s.actor), infos)
    }
}

/// The terrain fill candidate a tile action describes: the active terrain
/// box filled with the selected tile, or cleared.
pub open spec fn tile_candidate_spec(s: ClientSession, tile: Option<TileData>) -> Option<
    MapChange,
> {
    if s.active != Some(ToolBoxKind::Terrain) {
        None
    } else {
        match tile {
            Some(t) => Some(
                MapChange::MapInsertion { aabb: tool_box_at(s.terrain), tile_data: t },
            ),
            None => Some(MapChange::MapRemoval(tool_box_at(s.terrain))),
        }
    }
}

impl ClientSession {
    /// Apply one rotate input to the active actor box.
    pub fn actor_tool_rotation(&mut self, turn: TurnDir) -> (msg: Option<OutboundMessage>)
        requires
            old(self).wf(),
        ensures
            *final(self) == rotation_step(*old(self), turn).0,
            msg == rotation_step(*old(self), turn).1,
            final(self).wf(),
    {
        match self.active {
            Some(ToolBoxKind::Actor) => {},
            _ => {
                return None;
            },
        }
        let dims = self.actor.selection_box.aabb.dimensions;
        self.actor.selection_box.aabb.dimensions = Vec3i { x: dims.z, y: dims.y, z: dims.x };
        self.actor_rotation.turns = match turn {
            TurnDir::Left => (self.actor_rotation.turns + 1) % 4,
            TurnDir::Right => (self.actor_rotation.turns + 3) % 4,
        };
        Some(OutboundMessage::ActorToolRotation { client_id: self.client_id, turn })
    }

    /// Replace the previewed actor with a newly chosen palette actor whose
    /// prototype has the given bounds.
    pub fn update_chosen_actor(&mut self, actor_id: i64, prototype: Aabb) -> (msg: OutboundMessage)
        requires
            old(self).wf(),
            prototype.in_grid(),
        ensures
            *final(self) == chosen_actor_step(*old(self), actor_id, prototype).0,
            msg == chosen_actor_step(*old(self), actor_id, prototype).1,
            final(self).wf(),
    {
        let aabb = if self.actor_rotation.turns % 2 == 1 {
            Aabb {
                center: prototype.center,
                dimensions: Vec3i {
                    x: prototype.dimensions.z,
                    y: prototype.dimensions.y,
                    z: prototype.dimensions.x,
                },
            }
        } else {
            prototype
        };
        self.actor.selection_box.aabb = aabb;
        self.preview_actor = Some(actor_id);
        OutboundMessage::ActorToolSelection { client_id: self.client_id, actor_id }
    }

    /// Stage the insertion of the previewed actor, whose serialized subtree
    /// the engine layer hands in. Staged exactly when the actor box is
    /// active and a preview actor exists; otherwise a no-op.
    pub fn actor_insertion_request(&self, serialized: Vec<u8>) -> (r: Option<OutboundMessage>)
        ensures
            r is Some <==> self.active == Some(ToolBoxKind::Actor) && self.preview_actor is Some,
            r is Some ==> r == Some(
                OutboundMessage::ActorChange {
                    change: ActorChange::ActorInsertion { serialized },
                    store_history: self.client_id,
                },
            ),
    {
        match self.active {
            Some(ToolBoxKind::Actor) => {},
            _ => {
                return None;
            },
        }
        if self.preview_actor.is_none() {
            return None;
        }
        Some(
            OutboundMessage::ActorChange {
                change: ActorChange::ActorInsertion { serialized },
                store_history: self.client_id,
            },
        )
    }

    /// Stage one removal request per reported actor that has an identifier
    /// and intersects the active actor box; none unless the actor box is
    /// active.
    pub fn actor_removal_requests(&self, actors: &Vec<ActorInfo>) -> (r: Vec<OutboundMessage>)
        requires
            self.wf(),
            forall|i: int| 0 <= i < actors@.len() ==> (#[trigger] actors@[i]).bounds.in_grid(),
        ensures
            r@ == removal_requests_spec(*self, actors@),
    {
        let mut out: Vec<OutboundMessage> = Vec::new();
        match self.active {
            Some(ToolBoxKind::Actor) => {},
            _ => {
                return out;
            },
        }
        let tool_box = Aabb {
            center: self.actor.coord_pos,
            dimensions: self.actor.selection_box.aabb.dimensions,
        };
        let mut i: usize = 0;
        while i < actors.len()
            invariant
                self.wf(),
                forall|j: int| 0 <= j < actors@.len() ==> (#[trigger] actors@[j]).bounds.in_grid(),
                i <= actors@.len(),
                tool_box == tool_box_at(self.actor),
                self.active == Some(ToolBoxKind::Actor),
                out@ == removal_requests_rec(self.client_id, tool_box, actors@.take(i as int)),
            decreases actors@.len() - i,
        {
            let info = actors[i];
            if info.actor_id.is_some() && tool_box.intersects(&info.bounds) {
                let id = match info.actor_id {
                    Some(id) => id,
                    None => 0,
                };
                out.push(
                    OutboundMessage::ActorChange {
                        change: ActorChange::ActorRemoval(id),
                        store_history: self.client_id,
                    },
                );
            }
            proof {
                assert(actors@.take(i + 1).drop_last() =~= actors@.take(i as int));
                assert(actors@.take(i + 1).last() == actors@[i as int]);
            }
            i = i + 1;
        }
        proof {
            assert(actors@.take(actors@.len() as int) =~= actors@);
        }
        out
    }

    /// Describe the terrain fill a tile action would request, for the
    /// outside validity check: the active terrain box filled with the
    /// selected tile, or cleared. `None` unless the terrain box is active.
    pub fn tile_change_candidate(&self, tile: Option<TileData>) -> (r: Option<MapChange>)
        ensures
            r == tile_candidate_spec(*self, tile),
            r is Some <==> self.active == Some(ToolBoxKind::Terrain),
    {
        match self.active {
            Some(ToolBoxKind::Terrain) => {},
            _ => {
                return None;
            },
        }
        let aabb = Aabb {
            center: self.terrain.coord_pos,
            dimensions: self.terrain.selection_box.aabb.dimensions,
        };
        match tile {
            Some(t) => Some(MapChange::MapInsertion { aabb, tile_data: t }),
            None => Some(MapChange::MapRemoval(aabb)),
        }
    }

    /// Stage the terrain change if the outside validator accepted it.
    /// Staged exactly when the terrain box is active and the candidate was
    /// valid; a rejected candidate is dropped without any other effect.
    pub fn tile_change_request(&self, tile: Option<TileData>, valid: bool) -> (r: Option<
        OutboundMessage,
    >)
        ensures
            r is Some <==> self.active == Some(ToolBoxKind::Terrain) && valid,
            r is Some ==> r == Some(
                OutboundMessage::MapChange {
                    change: tile_candidate_spec(*self, tile)->Some_0,
                    store_history: self.client_id,
                },
            ),
    {
        if !valid {
            return None;
        }
        match self.tile_change_candidate(tile) {
            Some(change) => Some(
                OutboundMessage::MapChange { change, store_history: self.client_id },
            ),
            None => None,
        }
    }
}

} // verus!
