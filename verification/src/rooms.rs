//! Rooms and the room table.
//!
//! A room pairs two signaling endpoints: it has a caller slot and a callee
//! slot, each holding a non-owning reference to a session (the session's
//! opaque handle identity). The room table maps a room identifier to its one
//! room record. The table itself is a plain keyed store; the relay that owns
//! it maintains the global invariants (a room is present iff it has an
//! occupied slot, an occupant's own state matches its slot).

use vstd::prelude::*;

verus! {

broadcast use vstd::std_specs::hash::group_hash_axioms;

/// An opaque numeric room identifier, supplied by the signaling payload.
#[derive(Debug, Clone, Copy, PartialEq, Eq, Hash, Structural)]
pub struct RoomId(pub u64);

/// Which of a room's two slots a member occupies.
#[derive(Debug, Clone, Copy, PartialEq, Eq, Structural)]
pub enum Role {
    Caller,
    Callee,
}

/// A member to be placed in a room: a role together with the non-owning
/// handle identity of the session that claims it.
#[derive(Debug, Clone, Copy)]
pub enum RoomMember {
    Caller(u64),
    Callee(u64),
}

/// A pairing record: up to two role slots, each a non-owning session
/// reference. A slot holds only a handle identity; it never keeps the
/// session alive and must be re-resolved against the directory before use.
#[derive(Debug, Clone, Copy)]
pub struct Room {
    pub id: RoomId,
    pub caller: Option<u64>,
    pub callee: Option<u64>,
}

impl Room {
    /// A fresh room with both slots empty.
    pub fn new(id: RoomId) -> (r: Room)
        ensures
            r.id == id,
            r.caller is None,
            r.callee is None,
    {
        Room { id, caller: None, callee: None }
    }

    /// True iff neither slot is occupied.
    pub fn is_empty(&self) -> (r: bool)
        ensures
            r == (self.caller is None && self.callee is None),
    {
        self.caller.is_none() && self.callee.is_none()
    }

    /// Place a member in the slot its role names, unconditionally
    /// overwriting whatever reference that slot held before. A second
    /// session claiming an occupied role silently displaces the first
    /// occupant's reference; the displaced session is not notified.
    pub fn add_member(&mut self, member: RoomMember)
        ensures
            (match member {
                RoomMember::Caller(h) => final(self).caller == Some(h)
                    && final(self).callee == old(self).callee,
                RoomMember::Callee(h) => final(self).callee == Some(h)
                    && final(self).caller == old(self).caller,
            }),
            final(self).id == old(self).id,
    {
        match member {
            RoomMember::Caller(h) => {
                self.caller = Some(h);
            }
            RoomMember::Callee(h) => {
                self.callee = Some(h);
            }
        }
    }

    /// Empty the slot the role names, leaving the other slot alone.
    pub fn clear_slot(&mut self, role: Role)
        ensures
            (match role {
                Role::Caller => final(self).caller is None
                    && final(self).callee == old(self).callee,
                Role::Callee => final(self).callee is None
                    && final(self).caller == old(self).caller,
            }),
            final(self).id == old(self).id,
    {
        match role {
            Role::Caller => {
                self.caller = None;
            }
            Role::Callee => {
                self.callee = None;
            }
        }
    }
}

/// The mathematical content of a room table: room identifier to room record.
pub type RoomMap = Map<u64, Room>;

/// The process-wide registry of rooms, keyed by room identifier.
#[derive(Debug)]
pub struct RoomTable {
    map: std::collections::HashMap<u64, Room>,
}

impl View for RoomTable {
    type V = RoomMap;

    closed spec fn view(&self) -> RoomMap {
        self.map@
    }
}

impl RoomTable {
    /// An empty table.
    pub fn new() -> (t: RoomTable)
        ensures
            t@ == RoomMap::empty(),
    {
        RoomTable { map: std::collections::HashMap::new() }
    }

    /// Whether a room with this identifier is present.
    pub fn contains(&self, id: RoomId) -> (r: bool)
        ensures
            r == self@.contains_key(id.0),
    {
        self.map.contains_key(&id.0)
    }

    /// Create an empty room under this identifier if none is present;
    /// an existing room is left untouched.
    pub fn create_if_absent(&mut self, id: RoomId)
        ensures
            final(self)@ == if old(self)@.contains_key(id.0) {
                old(self)@
            } else {
                old(self)@.insert(id.0, Room { id, caller: None, callee: None })
            },
    {
        if !self.map.contains_key(&id.0) {
            self.map.insert(id.0, Room::new(id));
        }
    }

    /// The room under this identifier. The caller must have established
    /// that the room exists.
    pub fn get(&self, id: RoomId) -> (r: Room)
        requires
            self@.contains_key(id.0),
        ensures
            r == self@[id.0],
    {
        *self.map.get(&id.0).unwrap()
    }

    /// Store a room under its own identifier, replacing any previous
    /// record for that identifier.
    pub fn put(&mut self, room: Room)
        ensures
            final(self)@ == old(self)@.insert(room.id.0, room),
    {
        self.map.insert(room.id.0, room);
    }

    /// Remove the room under this identifier; absent identifiers are left
    /// as they are.
    pub fn remove(&mut self, id: RoomId)
        ensures
            final(self)@ == old(self)@.remove(id.0),
    {
        self.map.remove(&id.0);
    }

    /// How many rooms are present.
    pub fn len(&self) -> (n: usize)
        ensures
            n == self@.len(),
    {
        self.map.len()
    }
}

} // verus!
