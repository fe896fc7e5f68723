//! End-to-end scenarios through the relay: pairing, a routed call, peer
//! loss, unknown handles and the teardown race.

use p2p_relay::relay::{Action, Outcome, OutcomeKind, Relay, RelayError, SignalingError};
use p2p_relay::rooms::RoomId;

fn empty_object() -> serde_json::Value {
    serde_json::Value::Object(serde_json::Map::new())
}

fn object_with(key: &str, value: serde_json::Value) -> serde_json::Value {
    let mut m = serde_json::Map::new();
    m.insert(key.to_string(), value);
    serde_json::Value::Object(m)
}

/// Drive one queued message through the worker: dequeue, resolve, hand the
/// given verdict to the dispatch step.
fn worker_once(
    relay: &mut Relay,
    verdict_for: impl FnOnce() -> Result<Outcome, SignalingError>,
) -> Action {
    let env = relay.take_next().expect("an envelope must be queued");
    let verdict = match relay.resolve(env.session) {
        Some(_state) => Some(verdict_for()),
        None => None,
    };
    relay.step(env.session, env.transaction, verdict)
}

#[test]
fn scenario_pairing_call_and_teardown() {
    let mut relay = Relay::new();
    relay.create_session(1);
    relay.create_session(2);

    // Session 1 joins room 42; the processor routes the response back to
    // the joiner itself.
    relay.handle_message(1, 100, empty_object(), None).unwrap();
    let action = worker_once(&mut relay, || {
        Ok(Outcome { kind: OutcomeKind::Join(RoomId(42)), peer: 1, payload: empty_object() })
    });
    match action {
        Action::Publish { target, transaction, payload } => {
            assert_eq!(target, 1);
            assert_eq!(transaction, 100);
            assert_eq!(payload.get("ok"), Some(&serde_json::Value::Bool(true)));
        }
        Action::DropStale => panic!("the join response must be published"),
    }
    assert!(relay.room_present(RoomId(42)));
    assert_eq!(relay.room_caller(RoomId(42)), Some(1));
    assert_eq!(relay.room_callee(RoomId(42)), None);

    // Session 2 joins the same room and takes the complementary role.
    relay.handle_message(2, 101, empty_object(), None).unwrap();
    let action = worker_once(&mut relay, || {
        Ok(Outcome { kind: OutcomeKind::Join(RoomId(42)), peer: 2, payload: empty_object() })
    });
    assert!(matches!(action, Action::Publish { target: 2, .. }));
    assert_eq!(relay.room_caller(RoomId(42)), Some(1));
    assert_eq!(relay.room_callee(RoomId(42)), Some(2));

    // Session 1 calls; session 2 receives a payload carrying "ok": true.
    relay
        .handle_message(
            1,
            102,
            object_with("sdp", serde_json::Value::String("offer".to_string())),
            Some(empty_object()),
        )
        .unwrap();
    let action = worker_once(&mut relay, || {
        Ok(Outcome {
            kind: OutcomeKind::Call,
            peer: 2,
            payload: object_with("sdp", serde_json::Value::String("offer".to_string())),
        })
    });
    match action {
        Action::Publish { target, transaction, payload } => {
            assert_eq!(target, 2);
            assert_eq!(transaction, 102);
            assert_eq!(payload.get("ok"), Some(&serde_json::Value::Bool(true)));
            assert_eq!(
                payload.get("sdp"),
                Some(&serde_json::Value::String("offer".to_string()))
            );
        }
        Action::DropStale => panic!("the call response must be published"),
    }

    // Tearing down the callee leaves the room present with the caller.
    relay.destroy_session(2);
    assert!(relay.room_present(RoomId(42)));
    assert_eq!(relay.room_caller(RoomId(42)), Some(1));
    assert_eq!(relay.room_callee(RoomId(42)), None);
    assert_eq!(relay.session_count(), 1);

    // Tearing down the caller empties the room, which is removed.
    relay.destroy_session(1);
    assert!(!relay.room_present(RoomId(42)));
    assert_eq!(relay.room_count(), 0);
    assert_eq!(relay.session_count(), 0);
}

#[test]
fn scenario_peer_has_gone() {
    let mut relay = Relay::new();
    relay.create_session(1);
    relay.create_session(2);
    relay.join(1, RoomId(7));
    relay.join(2, RoomId(7));
    relay.destroy_session(2);

    // Session 1's message targets the vanished peer: the failure payload
    // goes back to the originator, and the registries are untouched.
    relay.handle_message(1, 55, empty_object(), None).unwrap();
    let action = worker_once(&mut relay, || {
        Ok(Outcome { kind: OutcomeKind::Call, peer: 2, payload: empty_object() })
    });
    match action {
        Action::Publish { target, transaction, payload } => {
            assert_eq!(target, 1);
            assert_eq!(transaction, 55);
            assert_eq!(payload.get("ok"), Some(&serde_json::Value::Bool(false)));
            assert_eq!(
                payload.get("error"),
                Some(&serde_json::Value::String("peer has gone".to_string()))
            );
        }
        Action::DropStale => panic!("the failure must be routed to the originator"),
    }
    assert_eq!(relay.session_count(), 1);
    assert!(relay.room_present(RoomId(7)));
    assert_eq!(relay.room_caller(RoomId(7)), Some(1));
    assert_eq!(relay.room_callee(RoomId(7)), None);
}

#[test]
fn scenario_session_not_found() {
    let mut relay = Relay::new();
    relay.create_session(1);

    let r = relay.handle_message(99, 1, empty_object(), None);
    assert_eq!(r, Err(RelayError::SessionNotFound));
    assert_eq!(relay.queue_len(), 0);
    assert_eq!(relay.session_count(), 1);
    assert_eq!(relay.room_count(), 0);
}

#[test]
fn scenario_teardown_race() {
    let mut relay = Relay::new();
    relay.create_session(1);
    relay.handle_message(1, 9, empty_object(), None).unwrap();

    // The session is torn down while its envelope still waits.
    relay.destroy_session(1);
    assert_eq!(relay.queue_len(), 1);

    let env = relay.take_next().expect("the envelope is still queued");
    assert!(relay.resolve(env.session).is_none());
    let action = relay.step(env.session, env.transaction, None);
    assert!(matches!(action, Action::DropStale));
    assert_eq!(relay.session_count(), 0);
    assert_eq!(relay.room_count(), 0);
}

#[test]
fn taking_from_an_empty_queue_yields_nothing() {
    let mut relay = Relay::new();
    assert!(relay.take_next().is_none());
    relay.create_session(1);
    relay.handle_message(1, 1, empty_object(), None).unwrap();
    assert!(relay.take_next().is_some());
    assert!(relay.take_next().is_none());
}

#[test]
fn processor_error_is_routed_back() {
    let mut relay = Relay::new();
    relay.create_session(4);
    relay.handle_message(4, 77, empty_object(), None).unwrap();
    let action = worker_once(&mut relay, || {
        Err(SignalingError { description: "bad request".to_string() })
    });
    match action {
        Action::Publish { target, transaction, payload } => {
            assert_eq!(target, 4);
            assert_eq!(transaction, 77);
            assert_eq!(payload.get("ok"), Some(&serde_json::Value::Bool(false)));
            assert_eq!(
                payload.get("error"),
                Some(&serde_json::Value::String("bad request".to_string()))
            );
        }
        Action::DropStale => panic!("the processor error must be routed back"),
    }
    assert_eq!(relay.session_count(), 1);
    assert_eq!(relay.room_count(), 0);
}
