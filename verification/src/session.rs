//! Per-client state and the optimistic update protocol.
//!
//! A client owns one terrain box and one actor box for the whole session. At
//! most one of them carries the active mark and receives tool input. Local
//! movement and expansion edits are optimistic: while no confirmation is
//! outstanding they apply to the live volume at once and open a pending
//! correction; while one is outstanding they fold into that correction
//! instead, so at any time at most one correction per client is in flight,
//! and every outbound request carries the cumulative absolute target. An
//! authoritative confirmation closes the correction: it always writes the
//! confirmed origin, and writes the confirmed dimensions only into the
//! volume that holds the active mark.

use vstd::prelude::*;
use crate::aabb::{Aabb, SelectionBox};
use crate::axis::{CameraAdjustedDirection, resolved_basis, CAMERA_LIMIT};
use crate::delta::{axis_anchor_diff, basis_cardinal, expanded_dim};
use crate::messages::{OutboundMessage, ToolBoxKind};
use crate::vec3::Vec3i;

verus! {

/// Tags the actor tool box; carries the actor palette selection it was
/// created with.
#[derive(Clone, Copy, Debug, PartialEq, Eq, Structural)]
pub struct ActorToolBox(pub i64);

impl ActorToolBox {
    pub fn get_selection(&self) -> (r: i64)
        ensures
            r == self.0,
    {
        self.0
    }
}

/// The rotation composed onto an actor box so far, in quarter turns
/// counterclockwise about the up axis, kept below four.
#[derive(Clone, Copy, Debug, PartialEq, Eq, Structural)]
pub struct SelectionBoxRotation {
    pub turns: u8,
}

/// One tool box together with its grid position.
#[derive(Clone, Copy, Debug, PartialEq, Eq, Structural)]
pub struct VolumeState {
    pub selection_box: SelectionBox,
    pub coord_pos: Vec3i,
}

/// The one outstanding correction of a client: the cumulative absolute
/// origin and bounds the client expects the next confirmation to converge
/// to. Exists only between a local edit and its confirmation.
#[derive(Clone, Copy, Debug, PartialEq, Eq, Structural)]
pub struct UpdateBounds {
    pub coord_pos: Vec3i,
    pub aabb: Aabb,
}

/// Everything this crate tracks for one client.
#[derive(Clone, Debug, PartialEq, Eq, Structural)]
pub struct ClientSession {
    pub client_id: u32,
    /// Grid basis resolved from this client's camera.
    pub camera_dir: CameraAdjustedDirection,
    pub terrain: VolumeState,
    pub actor: VolumeState,
    pub actor_tag: ActorToolBox,
    pub actor_rotation: SelectionBoxRotation,
    /// The palette actor currently previewed in the actor box, if any.
    pub preview_actor: Option<i64>,
    /// Which box holds the active mark; both start inactive.
    pub active: Option<ToolBoxKind>,
    /// The in-flight correction, if a confirmation is outstanding.
    pub pending: Option<UpdateBounds>,
}

impl ClientSession {
    pub open spec fn wf(self) -> bool {
        &&& self.terrain.selection_box.aabb.in_grid()
        &&& self.terrain.coord_pos.in_grid()
        &&& self.actor.selection_box.aabb.in_grid()
        &&& self.actor.coord_pos.in_grid()
        &&& (self.pending matches Some(p) ==> p.aabb.in_grid() && p.coord_pos.in_grid())
        &&& self.actor_rotation.turns < 4
        &&& basis_cardinal(self.camera_dir)
    }

    /// The volume that currently receives tool input.
    pub open spec fn active_volume(self) -> Option<VolumeState> {
        match self.active {
            Some(ToolBoxKind::Terrain) => Some(self.terrain),
            Some(ToolBoxKind::Actor) => Some(self.actor),
            None => None,
        }
    }

    /// The state of a fresh session: both boxes one cell at the grid
    /// origin, no active mark, no pending correction, no preview, identity
    /// rotation.
    pub open spec fn fresh(client_id: u32, actor_selection: i64) -> ClientSession {
        let boxed = VolumeState {
            selection_box: SelectionBox {
                aabb: Aabb {
                    center: Vec3i { x: 0, y: 0, z: 0 },
                    dimensions: Vec3i { x: 1, y: 1, z: 1 },
                },
            },
            coord_pos: Vec3i { x: 0, y: 0, z: 0 },
        };
        ClientSession {
            client_id,
            camera_dir: CameraAdjustedDirection {
                forward: Vec3i { x: 0, y: 0, z: 1 },
                right: Vec3i { x: 1, y: 0, z: 0 },
            },
            terrain: boxed,
            actor: boxed,
            actor_tag: ActorToolBox(actor_selection),
            actor_rotation: SelectionBoxRotation { turns: 0 },
            preview_actor: None,
            active: None,
            pending: None,
        }
    }

    /// A fresh session: both boxes one cell at the grid origin, no active
    /// mark, no pending correction, no preview, identity rotation.
    pub fn new(client_id: u32, actor_selection: i64) -> (s: ClientSession)
        ensures
            s == ClientSession::fresh(client_id, actor_selection),
            s.client_id == client_id,
            s.camera_dir == (CameraAdjustedDirection {
                forward: Vec3i { x: 0, y: 0, z: 1 },
                right: Vec3i { x: 1, y: 0, z: 0 },
            }),
            s.terrain == (VolumeState {
                selection_box: SelectionBox {
                    aabb: Aabb {
                        center: Vec3i { x: 0, y: 0, z: 0 },
                        dimensions: Vec3i { x: 1, y: 1, z: 1 },
                    },
                },
                coord_pos: Vec3i { x: 0, y: 0, z: 0 },
            }),
            s.actor == s.terrain,
            s.actor_tag == ActorToolBox(actor_selection),
            s.actor_rotation.turns == 0,
            s.preview_actor is None,
            s.active is None,
            s.pending is None,
            s.wf(),
    {
        let boxed = VolumeState { selection_box: SelectionBox::new(), coord_pos: Vec3i::zeros() };
        ClientSession {
            client_id,
            camera_dir: CameraAdjustedDirection {
                forward: Vec3i { x: 0, y: 0, z: 1 },
                right: Vec3i { x: 1, y: 0, z: 0 },
            },
            terrain: boxed,
            actor: boxed,
            actor_tag: ActorToolBox(actor_selection),
            actor_rotation: SelectionBoxRotation { turns: 0 },
            preview_actor: None,
            active: None,
            pending: None,
        }
    }

    /// Re-resolve the grid basis from the camera's current fixed-point
    /// horizontal view and right vectors.
    pub fn update_camera_basis(&mut self, fx: i64, fz: i64, rx: i64, rz: i64)
        requires
            old(self).wf(),
            -CAMERA_LIMIT <= fx <= CAMERA_LIMIT,
            -CAMERA_LIMIT <= fz <= CAMERA_LIMIT,
            -CAMERA_LIMIT <= rx <= CAMERA_LIMIT,
            -CAMERA_LIMIT <= rz <= CAMERA_LIMIT,
        ensures
            *final(self) == (ClientSession {
                camera_dir: resolved_basis(fx as int, fz as int, rx as int, rz as int),
                ..*old(self)
            }),
            final(self).wf(),
    {
        self.camera_dir = crate::axis::resolve_axes(fx, fz, rx, rz);
    }

    /// Re-resolving an unchanged camera is a no-op: the second update leaves
    /// the session exactly as the first left it.
    pub proof fn lemma_basis_update_idempotent(
        s: ClientSession,
        fx: int,
        fz: int,
        rx: int,
        rz: int,
    )
        ensures
            ({
                let s1 = ClientSession { camera_dir: resolved_basis(fx, fz, rx, rz), ..s };
                ClientSession { camera_dir: resolved_basis(fx, fz, rx, rz), ..s1 } == s1
            }),
    {
    }
}

/// The record a new local delta folds into: the in-flight correction if one
/// exists, else the live state of the volume holding the active mark.
pub open spec fn delta_base(s: ClientSession) -> UpdateBounds {
    match s.pending {
        Some(p) => p,
        None => match s.active_volume() {
            Some(v) => UpdateBounds { coord_pos: v.coord_pos, aabb: v.selection_box.aabb },
            None => UpdateBounds {
                coord_pos: Vec3i { x: 0, y: 0, z: 0 },
                aabb: Aabb {
                    center: Vec3i { x: 0, y: 0, z: 0 },
                    dimensions: Vec3i { x: 0, y: 0, z: 0 },
                },
            },
        },
    }
}

/// The cumulative target after one movement delta.
pub open spec fn movement_target(s: ClientSession, delta: Vec3i) -> UpdateBounds {
    UpdateBounds {
        coord_pos: delta_base(s).coord_pos.spec_plus(delta),
        aabb: delta_base(s).aabb,
    }
}

/// `s` with the active volume's position replaced.
pub open spec fn with_active_coord(s: ClientSession, c: Vec3i) -> ClientSession {
    match s.active {
        Some(ToolBoxKind::Terrain) => ClientSession {
            terrain: VolumeState { coord_pos: c, ..s.terrain },
            ..s
        },
        Some(ToolBoxKind::Actor) => ClientSession {
            actor: VolumeState { coord_pos: c, ..s.actor },
            ..s
        },
        None => s,
    }
}

/// One movement delta against the protocol. With no active volume nothing
/// happens. While idle, the live volume moves at once and the correction
/// opens at the result; while a confirmation is outstanding the delta folds
/// into the correction and the live volume waits. Either way one request
/// with the cumulative absolute target goes out.
pub open spec fn movement_step(s: ClientSession, delta: Vec3i) -> (
    ClientSession,
    Option<OutboundMessage>,
) {
    if s.active is None {
        (s, None)
    } else {
        let t = movement_target(s, delta);
        let s1 = if s.pending is None {
            with_active_coord(s, t.coord_pos)
        } else {
            s
        };
        (
            ClientSession { pending: Some(t), ..s1 },
            Some(
                OutboundMessage::UpdateSelectionBounds {
                    client_id: s.client_id,
                    origin: t.coord_pos,
                    dimensions: t.aabb.dimensions,
                },
            ),
        )
    }
}

/// The movement target stays on the grid.
pub open spec fn movement_allowed(s: ClientSession, delta: Vec3i) -> bool {
    s.active is Some ==> movement_target(s, delta).coord_pos.in_grid()
}

/// The cumulative target after one expansion delta: dimensions expanded by
/// the zero-crossing rule, position shifted so the camera-relative anchor
/// corner stays fixed.
pub open spec fn expansion_target(s: ClientSession, e: Vec3i) -> UpdateBounds {
    let b = delta_base(s);
    let d = b.aabb.dimensions;
    let nx = expanded_dim(d.x as int, e.x as int);
    let ny = expanded_dim(d.y as int, e.y as int);
    let nz = expanded_dim(d.z as int, e.z as int);
    let diff = Vec3i {
        x: axis_anchor_diff(d.x as int, nx, s.camera_dir.right.x < 0) as i32,
        y: axis_anchor_diff(d.y as int, ny, false) as i32,
        z: axis_anchor_diff(d.z as int, nz, s.camera_dir.right.z < 0) as i32,
    };
    UpdateBounds {
        coord_pos: b.coord_pos.spec_minus(diff),
        aabb: Aabb {
            center: b.aabb.center,
            dimensions: Vec3i { x: nx as i32, y: ny as i32, z: nz as i32 },
        },
    }
}

/// One expansion delta against the protocol. Expansion drives the terrain
/// box only, so nothing happens unless that box holds the active mark; the
/// idle/outstanding split is as for movement.
pub open spec fn expansion_step(s: ClientSession, e: Vec3i) -> (
    ClientSession,
    Option<OutboundMessage>,
) {
    if s.active != Some(ToolBoxKind::Terrain) {
        (s, None)
    } else {
        let t = expansion_target(s, e);
        let s1 = if s.pending is None {
            ClientSession {
                terrain: VolumeState {
                    selection_box: SelectionBox { aabb: t.aabb },
                    coord_pos: t.coord_pos,
                },
                ..s
            }
        } else {
            s
        };
        (
            ClientSession { pending: Some(t), ..s1 },
            Some(
                OutboundMessage::UpdateSelectionBounds {
                    client_id: s.client_id,
                    origin: t.coord_pos,
                    dimensions: t.aabb.dimensions,
                },
            ),
        )
    }
}

/// The expansion target stays on the grid.
pub open spec fn expansion_allowed(s: ClientSession, e: Vec3i) -> bool {
    s.active == Some(ToolBoxKind::Terrain) ==> {
        &&& expansion_target(s, e).coord_pos.in_grid()
        &&& expansion_target(s, e).aabb.dimensions.in_grid()
    }
}

/// The session after an authoritative confirmation: both volumes take the
/// confirmed origin, only the volume holding the active mark takes the
/// confirmed dimensions, and the in-flight correction is closed.
pub open spec fn confirm_step(s: ClientSession, origin: Vec3i, dimensions: Vec3i) -> ClientSession {
    let terrain = VolumeState {
        coord_pos: origin,
        selection_box: if s.active == Some(ToolBoxKind::Terrain) {
            SelectionBox { aabb: Aabb { center: s.terrain.selection_box.aabb.center, dimensions } }
        } else {
            s.terrain.selection_box
        },
    };
    let actor = VolumeState {
        coord_pos: origin,
        selection_box: if s.active == Some(ToolBoxKind::Actor) {
            SelectionBox { aabb: Aabb { center: s.actor.selection_box.aabb.center, dimensions } }
        } else {
            s.actor.selection_box
        },
    };
    ClientSession { terrain, actor, pending: None, ..s }
}

impl ClientSession {
    /// Apply one movement delta, already mapped to grid space.
    pub fn apply_movement(&mut self, delta: Vec3i) -> (msg: Option<OutboundMessage>)
        requires
            old(self).wf(),
            delta.is_unit_delta(),
            movement_allowed(*old(self), delta),
        ensures
            *final(self) == movement_step(*old(self), delta).0,
            msg == movement_step(*old(self), delta).1,
            final(self).wf(),
    {
        let kind = match self.active {
            Some(k) => k,
            None => {
                return None;
            },
        };
        let base = match &self.pending {
            Some(p) => *p,
            None => match kind {
                ToolBoxKind::Terrain => UpdateBounds {
                    coord_pos: self.terrain.coord_pos,
                    aabb: self.terrain.selection_box.aabb,
                },
                ToolBoxKind::Actor => UpdateBounds {
                    coord_pos: self.actor.coord_pos,
                    aabb: self.actor.selection_box.aabb,
                },
            },
        };
        let target = base.coord_pos.plus(delta);
        if self.pending.is_none() {
            match kind {
                ToolBoxKind::Terrain => self.terrain.coord_pos = target,
                ToolBoxKind::Actor => self.actor.coord_pos = target,
            }
        }
        self.pending = Some(UpdateBounds { coord_pos: target, aabb: base.aabb });
        Some(
            OutboundMessage::UpdateSelectionBounds {
                client_id: self.client_id,
                origin: target,
                dimensions: base.aabb.dimensions,
            },
        )
    }

    /// Apply one expansion delta, already mapped to per-axis form.
    pub fn apply_expansion(&mut self, expansion: Vec3i) -> (msg: Option<OutboundMessage>)
        requires
            old(self).wf(),
            expansion.is_unit_delta(),
            expansion_allowed(*old(self), expansion),
        ensures
            *final(self) == expansion_step(*old(self), expansion).0,
            msg == expansion_step(*old(self), expansion).1,
            final(self).wf(),
    {
        match self.active {
            Some(ToolBoxKind::Terrain) => {},
            _ => {
                return None;
            },
        }
        let base = match &self.pending {
            Some(p) => *p,
            None => UpdateBounds {
                coord_pos: self.terrain.coord_pos,
                aabb: self.terrain.selection_box.aabb,
            },
        };
        let mut new_aabb = base.aabb;
        let diff = crate::delta::expansion_movement_helper(
            expansion,
            &self.camera_dir,
            &mut new_aabb,
        );
        let target = base.coord_pos.minus(diff);
        if self.pending.is_none() {
            self.terrain = VolumeState {
                selection_box: SelectionBox { aabb: new_aabb },
                coord_pos: target,
            };
        }
        self.pending = Some(UpdateBounds { coord_pos: target, aabb: new_aabb });
        Some(
            OutboundMessage::UpdateSelectionBounds {
                client_id: self.client_id,
                origin: target,
                dimensions: new_aabb.dimensions,
            },
        )
    }

    /// Apply an authoritative confirmation for this client.
    pub fn apply_confirmation(&mut self, origin: Vec3i, dimensions: Vec3i)
        requires
            old(self).wf(),
            origin.in_grid(),
            dimensions.in_grid(),
        ensures
            *final(self) == confirm_step(*old(self), origin, dimensions),
            final(self).wf(),
    {
        self.terrain.coord_pos = origin;
        self.actor.coord_pos = origin;
        match self.active {
            Some(ToolBoxKind::Terrain) => {
                self.terrain.selection_box.aabb.dimensions = dimensions;
            },
            Some(ToolBoxKind::Actor) => {
                self.actor.selection_box.aabb.dimensions = dimensions;
            },
            None => {},
        }
        self.pending = None;
    }

    /// Give this session's box of the requested kind the active mark and
    /// build the activation notice.
    pub fn activate(&mut self, kind: ToolBoxKind) -> (msg: OutboundMessage)
        requires
            old(self).wf(),
        ensures
            *final(self) == (ClientSession { active: Some(kind), ..*old(self) }),
            final(self).wf(),
            kind == ToolBoxKind::Terrain ==> msg == (OutboundMessage::ActivateTerrainToolBox {
                client_id: old(self).client_id,
            }),
            kind == ToolBoxKind::Actor ==> msg == (OutboundMessage::ActivateActorToolBox {
                client_id: old(self).client_id,
            }),
    {
        self.active = Some(kind);
        match kind {
            ToolBoxKind::Terrain => OutboundMessage::ActivateTerrainToolBox {
                client_id: self.client_id,
            },
            ToolBoxKind::Actor => OutboundMessage::ActivateActorToolBox {
                client_id: self.client_id,
            },
        }
    }
}

/// Anchor invariant at the protocol level: one expansion step moves the
/// cumulative target so that, on each axis, the anchor corner of the target
/// bounds stays exactly where it was: the far corner where the camera-right
/// sign is negative on that axis (or where the new width is negative), the
/// near corner otherwise. Across a run of expansions with a fixed
/// camera-right sign the corner therefore never moves; see
/// `lemma_expansion_anchor_invariant` for the whole-run statement per axis.
pub proof fn lemma_expansion_anchor_step(s: ClientSession, e: Vec3i)
    requires
        s.wf(),
        s.active == Some(ToolBoxKind::Terrain),
        e.is_unit_delta(),
    ensures
        ({
            let b = delta_base(s);
            let t = expansion_target(s, e);
            let nd = t.aabb.dimensions;
            let od = b.aabb.dimensions;
            &&& ((nd.x < 0) != (s.camera_dir.right.x < 0)) ==> t.coord_pos.x + crate::aabb::max_off(
                nd.x as int,
            ) == b.coord_pos.x + crate::aabb::max_off(od.x as int)
            &&& ((nd.x < 0) == (s.camera_dir.right.x < 0)) ==> t.coord_pos.x + crate::aabb::min_off(
                nd.x as int,
            ) == b.coord_pos.x + crate::aabb::min_off(od.x as int)
            &&& (nd.y < 0) ==> t.coord_pos.y + crate::aabb::max_off(nd.y as int) == b.coord_pos.y
                + crate::aabb::max_off(od.y as int)
            &&& (nd.y >= 0) ==> t.coord_pos.y + crate::aabb::min_off(nd.y as int) == b.coord_pos.y
                + crate::aabb::min_off(od.y as int)
            &&& ((nd.z < 0) != (s.camera_dir.right.z < 0)) ==> t.coord_pos.z + crate::aabb::max_off(
                nd.z as int,
            ) == b.coord_pos.z + crate::aabb::max_off(od.z as int)
            &&& ((nd.z < 0) == (s.camera_dir.right.z < 0)) ==> t.coord_pos.z + crate::aabb::min_off(
                nd.z as int,
            ) == b.coord_pos.z + crate::aabb::min_off(od.z as int)
        }),
{
    let b = delta_base(s);
    let od = b.aabb.dimensions;
    assert(-crate::vec3::GRID_LIMIT <= od.x <= crate::vec3::GRID_LIMIT);
    assert(-crate::vec3::GRID_LIMIT <= od.y <= crate::vec3::GRID_LIMIT);
    assert(-crate::vec3::GRID_LIMIT <= od.z <= crate::vec3::GRID_LIMIT);
}

/// Coalescing: two movement deltas issued before any confirmation arrives
/// leave exactly one pending correction, whose target is the starting
/// position plus the vector sum of both deltas, and each of the two
/// outbound requests carries the cumulative, not the incremental, target.
/// The live volume moves only on the first, idle, delta.
pub proof fn lemma_movement_coalescing(s: ClientSession, d1: Vec3i, d2: Vec3i)
    requires
        s.wf(),
        s.active is Some,
        s.pending is None,
        d1.is_unit_delta(),
        d2.is_unit_delta(),
    ensures
        ({
            let c = s.active_volume()->Some_0.coord_pos;
            let dims = s.active_volume()->Some_0.selection_box.aabb.dimensions;
            let (s1, m1) = movement_step(s, d1);
            let (s2, m2) = movement_step(s1, d2);
            &&& s1.pending matches Some(p1) && p1.coord_pos.x == c.x + d1.x && p1.coord_pos.y == c.y
                + d1.y && p1.coord_pos.z == c.z + d1.z
            &&& s2.pending matches Some(p2) && p2.coord_pos.x == c.x + d1.x + d2.x
                && p2.coord_pos.y == c.y + d1.y + d2.y && p2.coord_pos.z == c.z + d1.z + d2.z
            &&& m1 == Some(
                OutboundMessage::UpdateSelectionBounds {
                    client_id: s.client_id,
                    origin: s1.pending->Some_0.coord_pos,
                    dimensions: dims,
                },
            )
            &&& m2 == Some(
                OutboundMessage::UpdateSelectionBounds {
                    client_id: s.client_id,
                    origin: s2.pending->Some_0.coord_pos,
                    dimensions: dims,
                },
            )
            &&& s2.active_volume() == s1.active_volume()
            &&& s1.active_volume()->Some_0.coord_pos == s1.pending->Some_0.coord_pos
        }),
{
    let v = s.active_volume()->Some_0;
    assert(-2 * crate::vec3::GRID_LIMIT <= v.coord_pos.x + d1.x <= 2 * crate::vec3::GRID_LIMIT);
}

/// Reconciliation: a confirmation always writes the confirmed origin into
/// both volumes and closes the pending correction; it writes the confirmed
/// dimensions only into the volume holding the active mark, and never
/// touches the dimensions of the other.
pub proof fn lemma_reconciliation(s: ClientSession, origin: Vec3i, dimensions: Vec3i)
    ensures
        confirm_step(s, origin, dimensions).terrain.coord_pos == origin,
        confirm_step(s, origin, dimensions).actor.coord_pos == origin,
        confirm_step(s, origin, dimensions).pending is None,
        s.active == Some(ToolBoxKind::Terrain) ==> confirm_step(
            s,
            origin,
            dimensions,
        ).terrain.selection_box.aabb.dimensions == dimensions,
        s.active != Some(ToolBoxKind::Terrain) ==> confirm_step(
            s,
            origin,
            dimensions,
        ).terrain.selection_box == s.terrain.selection_box,
        s.active == Some(ToolBoxKind::Actor) ==> confirm_step(
            s,
            origin,
            dimensions,
        ).actor.selection_box.aabb.dimensions == dimensions,
        s.active != Some(ToolBoxKind::Actor) ==> confirm_step(
            s,
            origin,
            dimensions,
        ).actor.selection_box == s.actor.selection_box,
{
}

} // verus!
