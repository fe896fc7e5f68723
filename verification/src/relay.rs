//! The relay service: the two registries, the envelope queue, and the
//! serialized dispatch step.
//!
//! One relay value is constructed at startup and shared with every call
//! site. Session creation and teardown run synchronously on the host's
//! calling thread; inbound messages are queued and consumed by a single
//! worker, which is the one serialization point for message-driven
//! mutation of the registries. The signaling payload's grammar stays
//! outside: an external processor turns a session's state and a request
//! payload into a routed outcome, and the relay executes the outcome.

use crate::payload::{failure_entries, failure_payload, json_entries, json_is_object, mark_ok,
    ok_marked};
use crate::rooms::{Room, RoomId, RoomMap, RoomMember, RoomTable, Role};
use crate::sessions::{SessionDirectory, SessionMap, SessionState};
use vstd::prelude::*;

verus! {

/// An inbound signaling message wrapped with its routing metadata: the
/// non-owning reference to the originating session, the host's transaction
/// identifier for correlation, the opaque request payload, and the
/// optional negotiation payload the host attached. The relay never parses
/// either payload's signaling semantics.
#[derive(Debug)]
pub struct Envelope {
    pub session: u64,
    pub transaction: u64,
    pub payload: serde_json::Value,
    pub negotiation: Option<serde_json::Value>,
}

/// What kind of message the signaling processor recognized. A join names
/// the room the payload asked for; the relay executes the pairing. The
/// other kinds leave the registries alone.
#[derive(Debug, Clone, Copy)]
pub enum OutcomeKind {
    Join(RoomId),
    Call,
    Accept,
    Candidate,
}

/// A routed outcome from the signaling processor: the kind of message, a
/// non-owning reference to the target peer, and the response payload (a
/// JSON object) to deliver there.
#[derive(Debug)]
pub struct Outcome {
    pub kind: OutcomeKind,
    pub peer: u64,
    pub payload: serde_json::Value,
}

/// A domain violation reported by the signaling processor; its description
/// is forwarded verbatim to the originating session.
#[derive(Debug)]
pub struct SignalingError {
    pub description: String,
}

/// An error surfaced synchronously to the host call site.
#[derive(Debug, Clone, Copy, PartialEq, Eq, Structural)]
pub enum RelayError {
    /// No session is associated with the handle at message-arrival time;
    /// nothing was enqueued.
    SessionNotFound,
}

/// What the worker asks the host to do after one dispatch step: deliver a
/// payload to a target session, or nothing, the envelope having been
/// dropped because its originating session was torn down first.
#[derive(Debug)]
pub enum Action {
    Publish { target: u64, transaction: u64, payload: serde_json::Value },
    DropStale,
}

/// One worker step's input, as replayed: the originating session, the
/// transaction identifier, and the processor's verdict — `None` when the
/// originator could not be resolved at dequeue time.
pub struct StepInput {
    pub origin: u64,
    pub transaction: u64,
    pub verdict: Option<Result<Outcome, SignalingError>>,
}

/// The registry-relevant shape of one step: everything of a step input
/// that can move the registries. Payloads, transaction identifiers and
/// target peers carry no registry effect.
#[derive(Debug, Clone, Copy, PartialEq, Eq, Structural)]
pub enum Route {
    Stale,
    Failed,
    Deliver,
    Join { room: u64 },
}

/// The relay service object: the session directory, the room table, and
/// the queue of envelopes awaiting the worker.
#[derive(Debug)]
pub struct Relay {
    pub sessions: SessionDirectory,
    pub rooms: RoomTable,
    pub queue: Vec<Envelope>,
}

/// The role a join into this room is assigned: the caller role when the
/// room does not exist yet or its caller slot is free, the callee role
/// otherwise (the complement of the present occupant).
pub open spec fn spec_assigned_role(rooms: RoomMap, rid: u64) -> bool {
    if !rooms.contains_key(rid) {
        true
    } else if rooms[rid].caller is None {
        true
    } else {
        false
    }
}

/// The room table after a session joins a room: the room is created if
/// absent, and the joining session's reference overwrites the slot of its
/// assigned role.
pub open spec fn spec_join_rooms(rooms: RoomMap, h: u64, rid: u64) -> RoomMap {
    let as_caller = spec_assigned_role(rooms, rid);
    let base = if rooms.contains_key(rid) {
        rooms[rid]
    } else {
        Room { id: RoomId(rid), caller: None, callee: None }
    };
    let updated = if as_caller {
        Room { id: base.id, caller: Some(h), callee: base.callee }
    } else {
        Room { id: base.id, caller: base.caller, callee: Some(h) }
    };
    rooms.insert(rid, updated)
}

/// The session directory after a session joins a room: its state records
/// the room and the assigned role.
pub open spec fn spec_join_sessions(rooms: RoomMap, sessions: SessionMap, h: u64, rid: u64) -> SessionMap {
    sessions.insert(
        h,
        SessionState { room_id: Some(RoomId(rid)), initiator: Some(spec_assigned_role(rooms, rid)) },
    )
}

/// The room table after one worker step: only a join moves it.
pub open spec fn spec_step_rooms(rooms: RoomMap, origin: u64, verdict: Option<Result<Outcome, SignalingError>>) -> RoomMap {
    match verdict {
        Some(Ok(o)) => match o.kind {
            OutcomeKind::Join(rid) => spec_join_rooms(rooms, origin, rid.0),
            _ => rooms,
        },
        _ => rooms,
    }
}

/// The session directory after one worker step: only a join moves it.
pub open spec fn spec_step_sessions(rooms: RoomMap, sessions: SessionMap, origin: u64, verdict: Option<Result<Outcome, SignalingError>>) -> SessionMap {
    match verdict {
        Some(Ok(o)) => match o.kind {
            OutcomeKind::Join(rid) => spec_join_sessions(rooms, sessions, origin, rid.0),
            _ => sessions,
        },
        _ => sessions,
    }
}

/// The room table after a session's teardown: the slot its state names is
/// cleared, and the room is removed when that leaves both slots empty. A
/// session with no room, or whose recorded room is gone, leaves the table
/// untouched.
pub open spec fn spec_teardown_rooms(rooms: RoomMap, sessions: SessionMap, h: u64) -> RoomMap {
    if !sessions.contains_key(h) {
        rooms
    } else {
        match sessions[h].room_id {
            None => rooms,
            Some(rid) => {
                if !rooms.contains_key(rid.0) {
                    rooms
                } else {
                    let base = rooms[rid.0];
                    let cleared = if sessions[h].initiator == Some(true) {
                        Room { id: base.id, caller: None, callee: base.callee }
                    } else {
                        Room { id: base.id, caller: base.caller, callee: None }
                    };
                    if cleared.caller is None && cleared.callee is None {
                        rooms.remove(rid.0)
                    } else {
                        rooms.insert(rid.0, cleared)
                    }
                }
            }
        }
    }
}

/// What each step of a replayed sequence demands, step by step against
/// the registries as they then stand: a verdict exactly when the
/// originator resolves, a JSON object behind every routed outcome, and
/// joins only from sessions that have no room yet.
pub open spec fn spec_replay_pre(rooms: RoomMap, sessions: SessionMap, inputs: Seq<StepInput>) -> bool
    decreases inputs.len(),
{
    inputs.len() == 0 || {
        let first = inputs[0];
        &&& (first.verdict is Some <==> sessions.contains_key(first.origin))
        &&& (first.verdict matches Some(Ok(o)) ==> json_is_object(o.payload))
        &&& (first.verdict matches Some(Ok(o)) ==> (o.kind matches OutcomeKind::Join(rid)
            ==> sessions[first.origin].room_id is None))
        &&& spec_replay_pre(
            spec_step_rooms(rooms, first.origin, first.verdict),
            spec_step_sessions(rooms, sessions, first.origin, first.verdict),
            inputs.drop_first(),
        )
    }
}

/// The registry-relevant shape of one step input.
pub open spec fn route_of(i: StepInput) -> Route {
    match i.verdict {
        None => Route::Stale,
        Some(Err(_)) => Route::Failed,
        Some(Ok(o)) => match o.kind {
            OutcomeKind::Join(rid) => Route::Join { room: rid.0 },
            _ => Route::Deliver,
        },
    }
}

/// Two step sequences are the same replay: equal length, and step by step
/// the same originator and the same registry-relevant shape.
pub open spec fn same_routing(a: Seq<StepInput>, b: Seq<StepInput>) -> bool {
    &&& a.len() == b.len()
    &&& forall|i: int| 0 <= i < a.len() ==> #[trigger] a[i].origin == b[i].origin
        && route_of(a[i]) == route_of(b[i])
}

/// The registries after replaying a sequence of worker steps in order.
pub open spec fn spec_replay(rooms: RoomMap, sessions: SessionMap, inputs: Seq<StepInput>) -> (RoomMap, SessionMap)
    decreases inputs.len(),
{
    if inputs.len() == 0 {
        (rooms, sessions)
    } else {
        let first = inputs[0];
        spec_replay(
            spec_step_rooms(rooms, first.origin, first.verdict),
            spec_step_sessions(rooms, sessions, first.origin, first.verdict),
            inputs.drop_first(),
        )
    }
}

impl Relay {
    /// A slot occupant's own state must name exactly the room and role of
    /// the slot that holds it, and the occupant must still be registered.
    pub open spec fn occupant_ok(self, h: u64, rid: u64, as_caller: bool) -> bool {
        &&& self.sessions@.contains_key(h)
        &&& self.sessions@[h].room_id == Some(RoomId(rid))
        &&& self.sessions@[h].initiator == Some(as_caller)
    }

    /// The handle occupies the named slot of the named room.
    pub open spec fn occupies(self, rid: u64, as_caller: bool, h: u64) -> bool {
        &&& self.rooms@.contains_key(rid)
        &&& if as_caller {
            self.rooms@[rid].caller == Some(h)
        } else {
            self.rooms@[rid].callee == Some(h)
        }
    }

    /// The global invariant over the registries: every room is stored
    /// under its own identifier and has at least one occupied slot, and
    /// every slot occupant is a live session whose state matches the slot.
    pub open spec fn wf(self) -> bool {
        forall|rid: u64| #[trigger] self.rooms@.contains_key(rid) ==> {
            let r = self.rooms@[rid];
            &&& r.id == RoomId(rid)
            &&& (r.caller is Some || r.callee is Some)
            &&& (r.caller matches Some(h) ==> self.occupant_ok(h, rid, true))
            &&& (r.callee matches Some(h) ==> self.occupant_ok(h, rid, false))
        }
    }

    /// A fresh relay with no sessions, no rooms and an empty queue.
    pub fn new() -> (r: Relay)
        ensures
            r.sessions@ == SessionMap::empty(),
            r.rooms@ == RoomMap::empty(),
            r.queue@ == Seq::<Envelope>::empty(),
            r.wf(),
    {
        Relay { sessions: SessionDirectory::new(), rooms: RoomTable::new(), queue: Vec::new() }
    }

    /// Register a freshly associated session, with no room and no role.
    /// The host guarantees a live handle is associated only once.
    pub fn create_session(&mut self, handle: u64)
        requires
            old(self).wf(),
            !old(self).sessions@.contains_key(handle),
        ensures
            final(self).wf(),
            final(self).sessions@ == old(self).sessions@.insert(
                handle,
                (SessionState { room_id: None, initiator: None }),
            ),
            final(self).rooms@ == old(self).rooms@,
            final(self).queue@ == old(self).queue@,
    {
        self.sessions.register(handle, SessionState::unbound());
    }

    /// Resolve a non-owning session reference against the directory: its
    /// current state, or nothing once the session has been torn down.
    pub fn resolve(&self, session: u64) -> (r: Option<SessionState>)
        ensures
            (match r {
                Some(s) => self.sessions@.contains_key(session) && s == self.sessions@[session],
                None => !self.sessions@.contains_key(session),
            }),
    {
        self.sessions.lookup(session)
    }

    /// Accept one inbound message from the host: if a session is
    /// associated with the handle, wrap the message into an envelope and
    /// append it to the worker's queue; otherwise report, synchronously,
    /// that no session was found, enqueueing nothing and changing nothing.
    pub fn handle_message(&mut self, session: u64, transaction: u64, payload: serde_json::Value, negotiation: Option<serde_json::Value>) -> (r: Result<(), RelayError>)
        ensures
            final(self).sessions@ == old(self).sessions@,
            final(self).rooms@ == old(self).rooms@,
            old(self).wf() ==> final(self).wf(),
            old(self).sessions@.contains_key(session) ==> r is Ok && final(self).queue@
                == old(self).queue@.push((Envelope { session, transaction, payload, negotiation })),
            !old(self).sessions@.contains_key(session) ==> (r matches Err(e) && e
                == RelayError::SessionNotFound) && final(self).queue@ == old(self).queue@,
    {
        if self.sessions.contains(session) {
            self.queue.push(Envelope { session, transaction, payload, negotiation });
            Ok(())
        } else {
            Err(RelayError::SessionNotFound)
        }
    }

    /// Dequeue the next envelope in strict arrival order, if any.
    pub fn take_next(&mut self) -> (r: Option<Envelope>)
        ensures
            final(self).sessions@ == old(self).sessions@,
            final(self).rooms@ == old(self).rooms@,
            old(self).wf() ==> final(self).wf(),
            old(self).queue@.len() == 0 ==> r is None && final(self).queue@ == old(self).queue@,
            old(self).queue@.len() > 0 ==> r == Some(old(self).queue@[0]) && final(self).queue@
                == old(self).queue@.drop_first(),
    {
        if self.queue.len() == 0 {
            None
        } else {
            let env = self.queue.remove(0);
            proof {
                assert(self.queue@ =~= old(self).queue@.drop_first());
            }
            Some(env)
        }
    }

    /// The role a join into this room would be assigned now.
    pub fn assigned_role(&self, room_id: RoomId) -> (r: bool)
        ensures
            r == spec_assigned_role(self.rooms@, room_id.0),
    {
        if !self.rooms.contains(room_id) {
            true
        } else {
            let room = self.rooms.get(room_id);
            room.caller.is_none()
        }
    }

    /// Execute the pairing for a join decided by the signaling processor:
    /// create the room if it is absent, place the session's reference in
    /// the slot of its assigned role — unconditionally overwriting that
    /// slot, so a colliding claim silently displaces the previous
    /// occupant's reference — and record room and role in the session's
    /// state. The processor only issues a join for a session that has not
    /// joined a room yet.
    pub fn join(&mut self, handle: u64, room_id: RoomId)
        requires
            old(self).wf(),
            old(self).sessions@.contains_key(handle),
            old(self).sessions@[handle].room_id is None,
        ensures
            final(self).wf(),
            final(self).rooms@ == spec_join_rooms(old(self).rooms@, handle, room_id.0),
            final(self).sessions@ == spec_join_sessions(
                old(self).rooms@,
                old(self).sessions@,
                handle,
                room_id.0,
            ),
            final(self).queue@ == old(self).queue@,
    {
        let as_caller = self.assigned_role(room_id);
        self.rooms.create_if_absent(room_id);
        let mut room = self.rooms.get(room_id);
        if as_caller {
            room.add_member(RoomMember::Caller(handle));
        } else {
            room.add_member(RoomMember::Callee(handle));
        }
        self.rooms.put(room);
        self.sessions.update(
            handle,
            SessionState { room_id: Some(room_id), initiator: Some(as_caller) },
        );
        proof {
            let orooms = old(self).rooms@;
            let osess = old(self).sessions@;
            let rid = room_id.0;
            assert(self.rooms@ =~= spec_join_rooms(orooms, handle, rid));
            assert forall|r2: u64| #[trigger] self.rooms@.contains_key(r2) implies {
                let r = self.rooms@[r2];
                &&& r.id == RoomId(r2)
                &&& (r.caller is Some || r.callee is Some)
                &&& (r.caller matches Some(h) ==> self.occupant_ok(h, r2, true))
                &&& (r.callee matches Some(h) ==> self.occupant_ok(h, r2, false))
            } by {
                if r2 != rid {
                    assert(orooms.contains_key(r2));
                    assert(self.rooms@[r2] == orooms[r2]);
                }
            }
        }
    }

    /// Tear a session down, synchronously on the host's calling thread:
    /// clear the slot its state names in its room, remove the session from
    /// the directory, and remove the room if both slots are now empty.
    /// Destroying a session that is in no room leaves the room table
    /// untouched and removes exactly that one directory entry; so does
    /// destroying an unknown handle (removal is idempotent) or one whose
    /// recorded room is already gone.
    pub fn destroy_session(&mut self, handle: u64)
        requires
            old(self).wf(),
        ensures
            final(self).wf(),
            final(self).sessions@ == old(self).sessions@.remove(handle),
            final(self).rooms@ == spec_teardown_rooms(
                old(self).rooms@,
                old(self).sessions@,
                handle,
            ),
            final(self).queue@ == old(self).queue@,
            old(self).sessions@.contains_key(handle) && old(self).sessions@[handle].room_id
                is None ==> final(self).rooms@ == old(self).rooms@,
            !old(self).sessions@.contains_key(handle) ==> final(self).rooms@ == old(self).rooms@,
    {
        let state = self.sessions.lookup(handle);
        self.sessions.unregister_by_handle(handle);
        match state {
            None => {}
            Some(st) => {
                match st.room_id {
                    None => {}
                    Some(rid) => {
                        if self.rooms.contains(rid) {
                            let mut room = self.rooms.get(rid);
                            let role = match st.initiator {
                                Some(true) => Role::Caller,
                                _ => Role::Callee,
                            };
                            room.clear_slot(role);
                            if room.is_empty() {
                                self.rooms.remove(rid);
                            } else {
                                self.rooms.put(room);
                            }
                        }
                    }
                }
            }
        }
        proof {
            let orooms = old(self).rooms@;
            let osess = old(self).sessions@;
            assert(self.rooms@ =~= spec_teardown_rooms(orooms, osess, handle));
            assert forall|r2: u64| #[trigger] self.rooms@.contains_key(r2) implies {
                let r = self.rooms@[r2];
                &&& r.id == RoomId(r2)
                &&& (r.caller is Some || r.callee is Some)
                &&& (r.caller matches Some(h) ==> self.occupant_ok(h, r2, true))
                &&& (r.callee matches Some(h) ==> self.occupant_ok(h, r2, false))
            } by {
                assert(orooms.contains_key(r2));
            }
        }
    }

    /// One serialized worker step, the processor's verdict in hand.
    ///
    /// `verdict` is `None` exactly when the originating session could not
    /// be resolved at dequeue time (it was torn down first): the envelope
    /// is dropped and nothing is answered. A processor error is routed
    /// back to the originator as a failure payload carrying its
    /// description. A routed outcome first has its join, if any, executed
    /// as pairing primitives; then the target peer is resolved: if gone,
    /// the originator receives the `peer has gone` failure payload; if
    /// live, the response payload — its success marker ensured — goes to
    /// the peer. The final registries are a function of the prior
    /// registries, the originator and the verdict alone.
    pub fn step(&mut self, origin: u64, transaction: u64, verdict: Option<Result<Outcome, SignalingError>>) -> (a: Action)
        requires
            old(self).wf(),
            verdict is Some <==> old(self).sessions@.contains_key(origin),
            verdict matches Some(Ok(o)) ==> json_is_object(o.payload),
            verdict matches Some(Ok(o)) ==> (o.kind matches OutcomeKind::Join(rid) ==> old(
                self,
            ).sessions@[origin].room_id is None),
        ensures
            final(self).wf(),
            final(self).queue@ == old(self).queue@,
            final(self).rooms@ == spec_step_rooms(old(self).rooms@, origin, verdict),
            final(self).sessions@ == spec_step_sessions(
                old(self).rooms@,
                old(self).sessions@,
                origin,
                verdict,
            ),
            verdict is None ==> a is DropStale,
            verdict matches Some(Err(err)) ==> (a matches Action::Publish {
                target,
                transaction: txn,
                payload,
            } && target == origin && txn == transaction && json_is_object(payload)
                && json_entries(payload) == failure_entries(err.description@)),
            verdict matches Some(Ok(o)) ==> (spec_step_sessions(
                old(self).rooms@,
                old(self).sessions@,
                origin,
                verdict,
            ).contains_key(o.peer) ==> (a matches Action::Publish {
                target,
                transaction: txn,
                payload,
            } && target == o.peer && txn == transaction && json_is_object(payload)
                && json_entries(payload) == ok_marked(json_entries(o.payload)))),
            verdict matches Some(Ok(o)) ==> (!spec_step_sessions(
                old(self).rooms@,
                old(self).sessions@,
                origin,
                verdict,
            ).contains_key(o.peer) ==> (a matches Action::Publish {
                target,
                transaction: txn,
                payload,
            } && target == origin && txn == transaction && json_is_object(payload)
                && json_entries(payload) == failure_entries("peer has gone"@))),
    {
        match verdict {
            None => Action::DropStale,
            Some(Err(e)) => {
                let payload = failure_payload(e.description.as_str());
                Action::Publish { target: origin, transaction, payload }
            }
            Some(Ok(o)) => {
                let Outcome { kind, peer, payload } = o;
                let mut payload = payload;
                match kind {
                    OutcomeKind::Join(rid) => {
                        self.join(origin, rid);
                    }
                    _ => {}
                }
                if self.sessions.contains(peer) {
                    mark_ok(&mut payload);
                    Action::Publish { target: peer, transaction, payload }
                } else {
                    let failure = failure_payload("peer has gone");
                    Action::Publish { target: origin, transaction, payload: failure }
                }
            }
        }
    }

    /// Replay a fixed sequence of worker steps in order, as the worker
    /// would drain them, discarding the publish actions. The registries
    /// land exactly on the replay of the sequence — the executable
    /// counterpart of the determinism law, which says that state depends
    /// only on the order of the steps' routing decisions.
    pub fn replay_steps(&mut self, inputs: Vec<StepInput>)
        requires
            old(self).wf(),
            spec_replay_pre(old(self).rooms@, old(self).sessions@, inputs@),
        ensures
            final(self).wf(),
            final(self).rooms@ == spec_replay(old(self).rooms@, old(self).sessions@, inputs@).0,
            final(self).sessions@ == spec_replay(old(self).rooms@, old(self).sessions@, inputs@).1,
            final(self).queue@ == old(self).queue@,
    {
        let ghost target = spec_replay(old(self).rooms@, old(self).sessions@, inputs@);
        let mut inputs = inputs;
        while inputs.len() > 0
            invariant
                self.wf(),
                spec_replay_pre(self.rooms@, self.sessions@, inputs@),
                spec_replay(self.rooms@, self.sessions@, inputs@) == target,
                self.queue@ == old(self).queue@,
            decreases inputs.len(),
        {
            let ghost before = inputs@;
            let first = inputs.remove(0);
            proof {
                assert(inputs@ =~= before.drop_first());
            }
            let StepInput { origin, transaction, verdict } = first;
            let _ = self.step(origin, transaction, verdict);
        }
    }

    /// The occupant of a room's caller slot, or nothing when the room is
    /// absent or the slot is empty.
    pub fn room_caller(&self, room_id: RoomId) -> (r: Option<u64>)
        ensures
            r == if self.rooms@.contains_key(room_id.0) {
                self.rooms@[room_id.0].caller
            } else {
                None::<u64>
            },
    {
        if self.rooms.contains(room_id) {
            self.rooms.get(room_id).caller
        } else {
            None
        }
    }

    /// The occupant of a room's callee slot, or nothing when the room is
    /// absent or the slot is empty.
    pub fn room_callee(&self, room_id: RoomId) -> (r: Option<u64>)
        ensures
            r == if self.rooms@.contains_key(room_id.0) {
                self.rooms@[room_id.0].callee
            } else {
                None::<u64>
            },
    {
        if self.rooms.contains(room_id) {
            self.rooms.get(room_id).callee
        } else {
            None
        }
    }

    /// Whether a room with this identifier is present.
    pub fn room_present(&self, room_id: RoomId) -> (r: bool)
        ensures
            r == self.rooms@.contains_key(room_id.0),
    {
        self.rooms.contains(room_id)
    }

    /// How many rooms are present.
    pub fn room_count(&self) -> (n: usize)
        ensures
            n == self.rooms@.len(),
    {
        self.rooms.len()
    }

    /// How many sessions are registered.
    pub fn session_count(&self) -> (n: usize)
        ensures
            n == self.sessions@.len(),
    {
        self.sessions.len()
    }

    /// How many envelopes await the worker.
    pub fn queue_len(&self) -> (n: usize)
        ensures
            n == self.queue@.len(),
    {
        self.queue.len()
    }
}

/// A session is a member of at most one room, in at most one role, at any
/// instant: in well-formed registries, a handle that occupies two slots
/// occupies one and the same slot of one and the same room.
pub proof fn lemma_member_of_at_most_one_slot(relay: Relay, h: u64, rid1: u64, caller1: bool, rid2: u64, caller2: bool)
    requires
        relay.wf(),
        relay.occupies(rid1, caller1, h),
        relay.occupies(rid2, caller2, h),
    ensures
        rid1 == rid2,
        caller1 == caller2,
{
    assert(relay.occupant_ok(h, rid1, caller1));
    assert(relay.occupant_ok(h, rid2, caller2));
}

/// A room is present in the table iff it has at least one occupied slot:
/// every room held by well-formed registries has an occupant (and a room
/// that is not present has no slots at all, so the other direction is
/// immediate).
pub proof fn lemma_room_present_iff_occupied(relay: Relay, rid: u64)
    requires
        relay.wf(),
        relay.rooms@.contains_key(rid),
    ensures
        relay.rooms@[rid].caller is Some || relay.rooms@[rid].callee is Some,
{
}

/// Replaying a fixed sequence of worker steps is deterministic: the final
/// registries depend only on the order of the steps' originators and
/// registry-relevant shapes — never on the payloads carried, the
/// transaction identifiers, the targeted peers, or which producer thread
/// handed an envelope over.
pub proof fn lemma_replay_deterministic(rooms: RoomMap, sessions: SessionMap, a: Seq<StepInput>, b: Seq<StepInput>)
    requires
        same_routing(a, b),
    ensures
        spec_replay(rooms, sessions, a) == spec_replay(rooms, sessions, b),
    decreases a.len(),
{
    if a.len() != 0 {
        let af = a[0];
        let bf = b[0];
        assert(af.origin == bf.origin && route_of(af) == route_of(bf));
        assert(spec_step_rooms(rooms, af.origin, af.verdict) == spec_step_rooms(
            rooms,
            bf.origin,
            bf.verdict,
        ));
        assert(spec_step_sessions(rooms, sessions, af.origin, af.verdict) == spec_step_sessions(
            rooms,
            sessions,
            bf.origin,
            bf.verdict,
        ));
        assert(same_routing(a.drop_first(), b.drop_first())) by {
            assert forall|i: int| 0 <= i < a.drop_first().len() implies #[trigger] a.drop_first()[i].origin
                == b.drop_first()[i].origin && route_of(a.drop_first()[i]) == route_of(
                b.drop_first()[i],
            ) by {
                assert(a[i + 1].origin == b[i + 1].origin && route_of(a[i + 1]) == route_of(
                    b[i + 1],
                ));
            }
        }
        lemma_replay_deterministic(
            spec_step_rooms(rooms, af.origin, af.verdict),
            spec_step_sessions(rooms, sessions, af.origin, af.verdict),
            a.drop_first(),
            b.drop_first(),
        );
    }
}

} // verus!
