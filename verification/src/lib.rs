//! Signaling control-plane core for a real-time media session service.
//!
//! A client holds one persistent bidirectional message connection. Over it,
//! the client authenticates into a room, initializes a media transport, and
//! then exchanges control commands while receiving room-wide broadcast
//! events. This crate holds the verified core of that protocol: the wire
//! envelope data model, the close-reason model, and the per-connection
//! protocol engine, written as an explicit state machine whose transition
//! function is fully specified. The surrounding I/O (the socket, the room
//! registry, the RTC session) is driven by an unverified shell that performs
//! each [`protocol::Action`] the engine requests and feeds the outcome back
//! as the next [`protocol::Input`].

pub mod error;
pub mod laws;
pub mod messages;
pub mod protocol;
