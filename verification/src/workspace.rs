//! The registry of client sessions.
//!
//! One session per client id; sessions of different clients never interact.
//! Lookups and the operations that arrive from outside carry a client id;
//! one for a client without a session is a no-op, never a fault: a late or
//! stray confirmation merely leaves state stale until the next round trip.

use vstd::prelude::*;
use crate::messages::{OutboundMessage, ToolBoxKind, ToolBoxType};
use crate::session::{confirm_step, ClientSession, ActorToolBox};
use crate::vec3::Vec3i;

verus! {

/// The actor palette selection a tool box description starts with.
pub open spec fn init_selection(tool_type: ToolBoxType) -> i64 {
    match tool_type {
        ToolBoxType::TerrainToolBox => 0,
        ToolBoxType::ActorToolBox(id) => id,
    }
}

/// All client sessions known to this process.
pub struct Workspace {
    pub sessions: Vec<ClientSession>,
}

impl Workspace {
    pub open spec fn wf(self) -> bool {
        &&& forall|i: int| 0 <= i < self.sessions@.len() ==> (#[trigger] self.sessions@[i]).wf()
        &&& forall|i: int, j: int|
            0 <= i < j < self.sessions@.len() ==> self.sessions@[i].client_id
                != self.sessions@[j].client_id
    }

    /// Some session carries this client id.
    pub open spec fn has_client(self, client_id: u32) -> bool {
        exists|i: int|
            0 <= i < self.sessions@.len() && (#[trigger] self.sessions@[i]).client_id == client_id
    }

    pub fn new() -> (w: Workspace)
        ensures
            w.sessions@.len() == 0,
            w.wf(),
    {
        Workspace { sessions: Vec::new() }
    }

    /// The index of the session for a client, if one exists.
    pub fn get_box_entity_by_client_id(&self, client_id: u32) -> (r: Option<usize>)
        ensures
            match r {
                Some(i) => i < self.sessions@.len() && self.sessions@[i as int].client_id
                    == client_id,
                None => !self.has_client(client_id),
            },
    {
        let mut i: usize = 0;
        while i < self.sessions.len()
            invariant
                i <= self.sessions@.len(),
                forall|j: int|
                    0 <= j < i ==> (#[trigger] self.sessions@[j]).client_id != client_id,
            decreases self.sessions@.len() - i,
        {
            if self.sessions[i].client_id == client_id {
                return Some(i);
            }
            i = i + 1;
        }
        None
    }

    /// Create the session for a client if it has none yet, and record the
    /// actor palette selection an actor tool box description carries. A
    /// repeated terrain initialization changes nothing. Returns the index
    /// of the client's session.
    pub fn initialize_selection_box(&mut self, client_id: u32, tool_type: ToolBoxType) -> (idx:
        usize)
        requires
            old(self).wf(),
            old(self).sessions@.len() < usize::MAX,
        ensures
            final(self).wf(),
            idx < final(self).sessions@.len(),
            final(self).sessions@[idx as int].client_id == client_id,
            !old(self).has_client(client_id) ==> final(self).sessions@ == old(
                self,
            ).sessions@.push(ClientSession::fresh(client_id, init_selection(tool_type))),
            old(self).has_client(client_id) ==> {
                &&& final(self).sessions@.len() == old(self).sessions@.len()
                &&& forall|j: int|
                    0 <= j < old(self).sessions@.len() && old(self).sessions@[j].client_id
                        != client_id ==> final(self).sessions@[j] == old(self).sessions@[j]
                &&& forall|j: int|
                    0 <= j < old(self).sessions@.len() && old(self).sessions@[j].client_id
                        == client_id ==> final(self).sessions@[j] == (ClientSession {
                        actor_tag: ActorToolBox(
                            match tool_type {
                                ToolBoxType::TerrainToolBox => old(self).sessions@[j].actor_tag.0,
                                ToolBoxType::ActorToolBox(id) => id,
                            },
                        ),
                        ..old(self).sessions@[j]
                    })
            },
    {
        let found = self.get_box_entity_by_client_id(client_id);
        match found {
            Some(i) => {
                match tool_type {
                    ToolBoxType::TerrainToolBox => {},
                    ToolBoxType::ActorToolBox(id) => {
                        let s = &mut self.sessions[i];
                        s.actor_tag = ActorToolBox(id);
                    },
                }
                i
            },
            None => {
                let selection = match tool_type {
                    ToolBoxType::TerrainToolBox => 0i64,
                    ToolBoxType::ActorToolBox(id) => id,
                };
                self.sessions.push(ClientSession::new(client_id, selection));
                self.sessions.len() - 1
            },
        }
    }

    /// Remove every session.
    pub fn free_all(&mut self)
        ensures
            final(self).sessions@.len() == 0,
            final(self).wf(),
    {
        self.sessions.clear();
    }

    /// Move the active mark of a client's session to the box of the given
    /// kind; the other kind loses it. A client without a session is left
    /// alone.
    pub fn set_active_selection_box(&mut self, client_id: u32, kind: ToolBoxKind)
        requires
            old(self).wf(),
        ensures
            final(self).wf(),
            final(self).sessions@.len() == old(self).sessions@.len(),
            forall|j: int|
                0 <= j < old(self).sessions@.len() && old(self).sessions@[j].client_id != client_id
                    ==> final(self).sessions@[j] == old(self).sessions@[j],
            forall|j: int|
                0 <= j < old(self).sessions@.len() && old(self).sessions@[j].client_id == client_id
                    ==> final(self).sessions@[j] == (ClientSession {
                    active: Some(kind),
                    ..old(self).sessions@[j]
                }),
    {
        let found = self.get_box_entity_by_client_id(client_id);
        if let Some(i) = found {
            let s = &mut self.sessions[i];
            s.active = Some(kind);
            proof {
                assert(forall|j: int|
                    0 <= j < old(self).sessions@.len() && old(self).sessions@[j].client_id
                        == client_id ==> j == i as int);
            }
        }
    }

    /// Activate the box of the given kind for a client and build the
    /// activation notice. Ignored, with no notice, while the client has no
    /// session yet.
    pub fn activate_tool_box(&mut self, client_id: u32, kind: ToolBoxKind) -> (msg: Option<
        OutboundMessage,
    >)
        requires
            old(self).wf(),
        ensures
            final(self).wf(),
            msg is Some <==> old(self).has_client(client_id),
            msg is Some ==> msg == Some(
                match kind {
                    ToolBoxKind::Terrain => OutboundMessage::ActivateTerrainToolBox { client_id },
                    ToolBoxKind::Actor => OutboundMessage::ActivateActorToolBox { client_id },
                },
            ),
            final(self).sessions@.len() == old(self).sessions@.len(),
            forall|j: int|
                0 <= j < old(self).sessions@.len() && old(self).sessions@[j].client_id != client_id
                    ==> final(self).sessions@[j] == old(self).sessions@[j],
            forall|j: int|
                0 <= j < old(self).sessions@.len() && old(self).sessions@[j].client_id == client_id
                    ==> final(self).sessions@[j] == (ClientSession {
                    active: Some(kind),
                    ..old(self).sessions@[j]
                }),
    {
        let found = self.get_box_entity_by_client_id(client_id);
        match found {
            Some(i) => {
                let s = &mut self.sessions[i];
                let msg = s.activate(kind);
                proof {
                    assert(forall|j: int|
                        0 <= j < old(self).sessions@.len() && old(self).sessions@[j].client_id
                            == client_id ==> j == i as int);
                }
                Some(msg)
            },
            None => None,
        }
    }

    /// Apply an authoritative confirmation to the session of the client it
    /// names. A confirmation for an unknown client changes nothing.
    pub fn apply_confirmation(&mut self, client_id: u32, origin: Vec3i, dimensions: Vec3i)
        requires
            old(self).wf(),
            origin.in_grid(),
            dimensions.in_grid(),
        ensures
            final(self).wf(),
            final(self).sessions@.len() == old(self).sessions@.len(),
            forall|j: int|
                0 <= j < old(self).sessions@.len() && old(self).sessions@[j].client_id != client_id
                    ==> final(self).sessions@[j] == old(self).sessions@[j],
            forall|j: int|
                0 <= j < old(self).sessions@.len() && old(self).sessions@[j].client_id == client_id
                    ==> final(self).sessions@[j] == confirm_step(
                    old(self).sessions@[j],
                    origin,
                    dimensions,
                ),
    {
        let found = self.get_box_entity_by_client_id(client_id);
        if let Some(i) = found {
            let s = &mut self.sessions[i];
            s.apply_confirmation(origin, dimensions);
            proof {
                assert(forall|j: int|
                    0 <= j < old(self).sessions@.len() && old(self).sessions@[j].client_id
                        == client_id ==> j == i as int);
            }
        }
    }

    /// Borrow a client's session for the per-tick input passes.
    pub fn session_at_mut(&mut self, i: usize) -> (s: &mut ClientSession)
        requires
            i < old(self).sessions@.len(),
        ensures
            *s == old(self).sessions@[i as int],
            final(self).sessions@ == old(self).sessions@.update(i as int, *final(s)),
    {
        &mut self.sessions[i]
    }
}

} // verus!
