//! The wire envelope data model: inbound commands, outbound replies and
//! events, and the room broadcast events the engine consumes.
//!
//! Payloads that only the RTC collaborator interprets (RTP capabilities,
//! transport init/connect parameters, a user's public info projection) are
//! carried as opaque strings: the engine moves them, never inspects them.

use vstd::prelude::*;

verus! {

/// An inbound command envelope: an optional correlation id, echoed back in
/// the reply or error that answers the command, plus the command payload.
pub struct WSCommand {
    pub id: Option<String>,
    pub command_type: WSCommandType,
}

/// The inbound command payloads. Exactly one is legal per protocol phase,
/// except in the active phase, where `ConnectTransport` and `RoomInfo` are
/// both accepted.
pub enum WSCommandType {
    Authenticate { room_id: String, token: String },
    InitializeTransports { init_data: String },
    ConnectTransport { connect_data: String },
    RoomInfo,
}

/// The four command kinds, without their payloads. Used where an envelope
/// must name the command that triggered it after the payload has been
/// handed on (an error report for a failed `ConnectTransport`).
pub enum CommandTag {
    Authenticate,
    InitializeTransports,
    ConnectTransport,
    RoomInfo,
}

/// The kind of a command, forgetting its payload.
pub open spec fn command_kind(t: WSCommandType) -> CommandTag {
    match t {
        WSCommandType::Authenticate { .. } => CommandTag::Authenticate,
        WSCommandType::InitializeTransports { .. } => CommandTag::InitializeTransports,
        WSCommandType::ConnectTransport { .. } => CommandTag::ConnectTransport,
        WSCommandType::RoomInfo => CommandTag::RoomInfo,
    }
}

/// The name under which a command kind appears in an error envelope's
/// `type` field.
pub open spec fn command_tag_chars(t: CommandTag) -> Seq<char> {
    match t {
        CommandTag::Authenticate => "Authenticate"@,
        CommandTag::InitializeTransports => "InitializeTransports"@,
        CommandTag::ConnectTransport => "ConnectTransport"@,
        CommandTag::RoomInfo => "RoomInfo"@,
    }
}

impl CommandTag {
    /// The command kind's name, as written into an error envelope.
    pub fn as_tag(&self) -> (r: &'static str)
        ensures
            r@ == command_tag_chars(*self),
    {
        match self {
            CommandTag::Authenticate => "Authenticate",
            CommandTag::InitializeTransports => "InitializeTransports",
            CommandTag::ConnectTransport => "ConnectTransport",
            CommandTag::RoomInfo => "RoomInfo",
        }
    }
}

impl WSCommandType {
    /// The payload's kind name, as written into an error envelope.
    pub fn as_tag(&self) -> (r: &'static str)
        ensures
            r@ == command_tag_chars(command_kind(*self)),
    {
        match self {
            WSCommandType::Authenticate { .. } => "Authenticate",
            WSCommandType::InitializeTransports { .. } => "InitializeTransports",
            WSCommandType::ConnectTransport { .. } => "ConnectTransport",
            WSCommandType::RoomInfo => "RoomInfo",
        }
    }
}

/// An outbound reply envelope: carries the triggering command's correlation
/// id (or `None` when the command had none) and one reply payload per
/// command kind that succeeds.
pub struct WSReply {
    pub id: Option<String>,
    pub reply_type: WSReplyType,
}

/// The outbound reply payloads, one per command kind.
pub enum WSReplyType {
    Authenticate { user_id: String, room_id: String, rtp_capabilities: String },
    InitializeTransports { reply_data: String },
    ConnectTransport,
    RoomInfo { id: String, video_allowed: bool, users: Vec<(String, String)> },
}

/// An outbound event envelope, pushed asynchronously with no correlation
/// id: another participant joined, left, or changed produce state.
pub enum WSEvent {
    UserJoined { id: String },
    UserLeft { id: String },
    UserStartProduce { id: String, produce_type: String },
    UserStopProduce { id: String, produce_type: String },
}

/// A room-wide broadcast event as the room's subscription delivers it.
/// `RoomDelete` ends every subscribed connection; the others are forwarded
/// to every connection except the one whose own user they concern.
pub enum RoomEvent {
    UserJoined(String),
    UserLeft(String),
    UserStartProduce(String, String),
    UserStopProduce(String, String),
    RoomDelete,
}

} // verus!
