//! The last payload of each endpoint. A scheduler tick stores one, the
//! handlers serve it. Payloads live in memory only.

use vstd::prelude::*;

use crate::json::{Json, JsonView};

verus! {

/// An endpoint of the data plane.
#[derive(Debug, Clone, Copy, PartialEq, Eq, Structural)]
pub enum EndpointKind {
    Now,
    Recent,
    Top,
    Profile,
    Playlists,
}

/// One cell per endpoint; empty until a payload is stored.
#[derive(Debug)]
pub struct Snapshots {
    pub now: Option<Json>,
    pub recent: Option<Json>,
    pub top: Option<Json>,
    pub profile: Option<Json>,
    pub playlists: Option<Json>,
}

/// What a cell holds.
pub open spec fn cell_view(cell: Option<Json>) -> Option<JsonView> {
    match cell {
        Some(payload) => Some(payload@),
        None => None,
    }
}

impl Snapshots {
    /// The payload stored for an endpoint.
    pub open spec fn stored(self, kind: EndpointKind) -> Option<JsonView> {
        match kind {
            EndpointKind::Now => cell_view(self.now),
            EndpointKind::Recent => cell_view(self.recent),
            EndpointKind::Top => cell_view(self.top),
            EndpointKind::Profile => cell_view(self.profile),
            EndpointKind::Playlists => cell_view(self.playlists),
        }
    }

    pub fn new() -> (snapshots: Snapshots)
        ensures
            forall|kind: EndpointKind| (#[trigger] snapshots.stored(kind)) is None,
    {
        Snapshots { now: None, recent: None, top: None, profile: None, playlists: None }
    }

    /// The cell of an endpoint.
    pub fn cell(&self, kind: EndpointKind) -> (cell: &Option<Json>)
        ensures
            cell_view(*cell) == self.stored(kind),
            *cell == match kind {
                EndpointKind::Now => self.now,
                EndpointKind::Recent => self.recent,
                EndpointKind::Top => self.top,
                EndpointKind::Profile => self.profile,
                EndpointKind::Playlists => self.playlists,
            },
    {
        match kind {
            EndpointKind::Now => &self.now,
            EndpointKind::Recent => &self.recent,
            EndpointKind::Top => &self.top,
            EndpointKind::Profile => &self.profile,
            EndpointKind::Playlists => &self.playlists,
        }
    }

    /// A copy of the payload stored for an endpoint.
    pub fn get(&self, kind: EndpointKind) -> (payload: Option<Json>)
        ensures
            cell_view(payload) == self.stored(kind),
    {
        match self.cell(kind) {
            Some(payload) => Some(payload.copy()),
            None => None,
        }
    }

    /// Store a payload for an endpoint; `None` empties its cell. The other
    /// cells keep what they hold.
    pub fn set(&mut self, kind: EndpointKind, value: Option<Json>)
        ensures
            final(self).stored(kind) == cell_view(value),
            forall|other: EndpointKind|
                other != kind ==> #[trigger] final(self).stored(other) == old(self).stored(other),
    {
        match kind {
            EndpointKind::Now => self.now = value,
            EndpointKind::Recent => self.recent = value,
            EndpointKind::Top => self.top = value,
            EndpointKind::Profile => self.profile = value,
            EndpointKind::Playlists => self.playlists = value,
        }
    }
}

impl Default for Snapshots {
    fn default() -> (snapshots: Snapshots)
        ensures
            forall|kind: EndpointKind| (#[trigger] snapshots.stored(kind)) is None,
    {
        Snapshots::new()
    }
}

} // verus!
