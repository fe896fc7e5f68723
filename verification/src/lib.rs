//! A two-party call-signaling relay: a registry of sessions and rooms plus a
//! serialized dispatch step that turns one inbound signaling message into a
//! routed outcome for the paired peer.
//!
//! The host process owns the transport and the signaling grammar; this crate
//! owns the state: which session sits in which room, in which role, and what
//! is delivered where when a message has been processed.

pub mod payload;
pub mod relay;
pub mod rooms;
pub mod sessions;
