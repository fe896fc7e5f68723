//! Per-session signaling state and the session directory.
//!
//! A session is the relay's view of one endpoint: whether it has joined a
//! room, and in which role. The directory registers every live session under
//! the host's opaque handle identity; everything else holds only that
//! identity and must resolve it here before use, so a torn-down session is
//! detected as gone instead of being read stale.

use crate::rooms::{Room, RoomId, RoomTable};
use vstd::prelude::*;

verus! {

broadcast use vstd::std_specs::hash::group_hash_axioms;

/// One endpoint's signaling state: the room it has joined, if any, and
/// whether it joined as the initiator (the caller) of that room.
#[derive(Debug, Clone, Copy)]
pub struct SessionState {
    pub room_id: Option<RoomId>,
    pub initiator: Option<bool>,
}

impl SessionState {
    /// The state of a session that has not joined any room.
    pub fn unbound() -> (s: SessionState)
        ensures
            s.room_id is None,
            s.initiator is None,
    {
        SessionState { room_id: None, initiator: None }
    }

    /// The room this state names in the given table. The caller must have
    /// established that the session has joined a room and that the room is
    /// present.
    pub fn get_room(&self, rooms: &RoomTable) -> (r: Room)
        requires
            self.room_id matches Some(rid) && rooms@.contains_key(rid.0),
        ensures
            (self.room_id matches Some(rid) && r == rooms@[rid.0]),
    {
        match self.room_id {
            Some(rid) => rooms.get(rid),
            None => vstd::pervasive::unreached(),
        }
    }
}

/// The mathematical content of a session directory: handle identity to
/// session state.
pub type SessionMap = Map<u64, SessionState>;

/// The process-wide registry of live sessions, keyed by the host's opaque
/// handle identity.
#[derive(Debug)]
pub struct SessionDirectory {
    map: std::collections::HashMap<u64, SessionState>,
}

impl View for SessionDirectory {
    type V = SessionMap;

    closed spec fn view(&self) -> SessionMap {
        self.map@
    }
}

impl SessionDirectory {
    /// An empty directory.
    pub fn new() -> (d: SessionDirectory)
        ensures
            d@ == SessionMap::empty(),
    {
        SessionDirectory { map: std::collections::HashMap::new() }
    }

    /// Whether a session is registered under this handle.
    pub fn contains(&self, handle: u64) -> (r: bool)
        ensures
            r == self@.contains_key(handle),
    {
        self.map.contains_key(&handle)
    }

    /// Register a session's state under its handle. The host guarantees
    /// that a live handle is associated only once, so the handle must not
    /// already be present.
    pub fn register(&mut self, handle: u64, state: SessionState)
        requires
            !old(self)@.contains_key(handle),
        ensures
            final(self)@ == old(self)@.insert(handle, state),
    {
        self.map.insert(handle, state);
    }

    /// Replace the state registered under a live handle.
    pub fn update(&mut self, handle: u64, state: SessionState)
        requires
            old(self)@.contains_key(handle),
        ensures
            final(self)@ == old(self)@.insert(handle, state),
    {
        self.map.insert(handle, state);
    }

    /// Resolve a non-owning reference: the state registered under the
    /// handle, or nothing once the session has been torn down. Removing a
    /// handle that is not present is a no-op, so a stale reference resolves
    /// to nothing rather than to stale data.
    pub fn lookup(&self, handle: u64) -> (r: Option<SessionState>)
        ensures
            (match r {
                Some(s) => self@.contains_key(handle) && s == self@[handle],
                None => !self@.contains_key(handle),
            }),
    {
        match self.map.get(&handle) {
            Some(s) => Some(*s),
            None => None,
        }
    }

    /// Remove the entry registered under this handle, if any; unknown
    /// handles are left as they are, so removal is idempotent.
    pub fn unregister_by_handle(&mut self, handle: u64)
        ensures
            final(self)@ == old(self)@.remove(handle),
    {
        self.map.remove(&handle);
    }

    /// How many sessions are registered.
    pub fn len(&self) -> (n: usize)
        ensures
            n == self@.len(),
    {
        self.map.len()
    }
}

} // verus!
