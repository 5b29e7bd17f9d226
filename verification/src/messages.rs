//! Outbound change requests and the wire-facing value types they carry.
//!
//! Every message is tagged with the originating client id. The surrounding
//! transport layer sends them as ordered, at-least-once messages; this crate
//! only decides which messages leave, and with which payload.

use vstd::prelude::*;
use crate::aabb::Aabb;
use crate::vec3::Vec3i;

verus! {

/// Which kind of tool box a request concerns.
#[derive(Clone, Copy, Debug, PartialEq, Eq, Structural)]
pub enum ToolBoxType {
    TerrainToolBox,
    /// Carries the actor palette selection the box starts with.
    ActorToolBox(i64),
}

/// The two tool box kinds, without payload; used for activation marks.
#[derive(Clone, Copy, Debug, PartialEq, Eq, Structural)]
pub enum ToolBoxKind {
    Terrain,
    Actor,
}

/// The sense of one discrete rotation input.
#[derive(Clone, Copy, Debug, PartialEq, Eq, Structural)]
pub enum TurnDir {
    Left,
    Right,
}

/// A palette tile plus its placement offset, as carried by a terrain fill.
#[derive(Clone, Copy, Debug, PartialEq, Eq, Structural)]
pub struct TileData {
    pub tile: u32,
    pub offset: Vec3i,
}

impl TileData {
    pub fn new(tile: u32, offset: Vec3i) -> (r: TileData)
        ensures
            r == (TileData { tile, offset }),
    {
        TileData { tile, offset }
    }
}

/// A staged change to the placed actors of the world.
#[derive(Clone, Debug, PartialEq, Eq)]
pub enum ActorChange {
    /// A serialized copy of the preview actor's subtree, ready to insert.
    ActorInsertion { serialized: Vec<u8> },
    /// Removal of the actor with this identifier.
    ActorRemoval(i64),
}

/// A staged change to the terrain tile map.
#[derive(Clone, Copy, Debug, PartialEq, Eq, Structural)]
pub enum MapChange {
    MapInsertion { aabb: Aabb, tile_data: TileData },
    MapRemoval(Aabb),
}

/// An outbound request to the replicated channel.
#[derive(Clone, Debug, PartialEq, Eq)]
pub enum OutboundMessage {
    /// The cumulative absolute bounds a client expects to converge to.
    UpdateSelectionBounds { client_id: u32, origin: Vec3i, dimensions: Vec3i },
    ActivateTerrainToolBox { client_id: u32 },
    ActivateActorToolBox { client_id: u32 },
    ActorToolRotation { client_id: u32, turn: TurnDir },
    ActorToolSelection { client_id: u32, actor_id: i64 },
    /// An actor change, attributed to `store_history` for undo history.
    ActorChange { change: ActorChange, store_history: u32 },
    /// A terrain change, attributed to `store_history` for undo history.
    MapChange { change: MapChange, store_history: u32 },
}

} // verus!
