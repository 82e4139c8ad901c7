//! The close-reason model and the in-band error envelope.
//!
//! Every terminal outcome of a connection maps to exactly one
//! [`WSCloseType`], which carries a fixed numeric wire close code and a
//! fixed human-readable reason string. Recoverable operational failures are
//! instead reported in-band as a [`WSError`] envelope and the connection
//! stays open.

use vstd::prelude::*;
use vstd::string::StringExecFns;

use crate::messages::WSCommand;
use crate::messages::command_kind;
use crate::messages::command_tag_chars;

verus! {

/// The kind of an error reported in-band while the connection stays open.
pub enum WSErrorType {
    UserNotFound(String),
    TransportConnectionFailure,
    ProducerFailure,
    ProducerNotFound(String),
    ConsumerFailure,
    ConsumerNotFound(String),
}

/// The static kind name written into an error envelope's `error` field.
pub open spec fn error_tag_chars(e: WSErrorType) -> Seq<char> {
    match e {
        WSErrorType::UserNotFound(_) => "UserNotFound"@,
        WSErrorType::TransportConnectionFailure => "TransportConnectionFailure"@,
        WSErrorType::ProducerFailure => "ProducerFailure"@,
        WSErrorType::ProducerNotFound(_) => "ProducerNotFound"@,
        WSErrorType::ConsumerFailure => "ConsumerFailure"@,
        WSErrorType::ConsumerNotFound(_) => "ConsumerNotFound"@,
    }
}

/// The human-readable message written into an error envelope's `message`
/// field.
pub open spec fn error_message_chars(e: WSErrorType) -> Seq<char> {
    match e {
        WSErrorType::UserNotFound(id) => "User with ID "@ + id@ + " doesn't exist"@,
        WSErrorType::TransportConnectionFailure => (
            "An error occured while trying to connect transport"@
        ),
        WSErrorType::ProducerFailure => (
            "An unknown error occured while setting up an RTC producer"@
        ),
        WSErrorType::ProducerNotFound(id) => "Producer with ID "@ + id@ + " doesn't exist"@,
        WSErrorType::ConsumerFailure => (
            "An unknown error occured while setting up an RTC consumer"@
        ),
        WSErrorType::ConsumerNotFound(id) => "Consumer with ID "@ + id@ + " doesn't exist"@,
    }
}

impl WSErrorType {
    /// The static kind name of this error.
    pub fn as_tag(&self) -> (r: &'static str)
        ensures
            r@ == error_tag_chars(*self),
    {
        match self {
            WSErrorType::UserNotFound(_) => "UserNotFound",
            WSErrorType::TransportConnectionFailure => "TransportConnectionFailure",
            WSErrorType::ProducerFailure => "ProducerFailure",
            WSErrorType::ProducerNotFound(_) => "ProducerNotFound",
            WSErrorType::ConsumerFailure => "ConsumerFailure",
            WSErrorType::ConsumerNotFound(_) => "ConsumerNotFound",
        }
    }

    /// The human-readable message for this error.
    pub fn message(&self) -> (r: String)
        ensures
            r@ == error_message_chars(*self),
    {
        match self {
            WSErrorType::UserNotFound(id) => String::from_str("User with ID ").concat(
                id.as_str(),
            ).concat(" doesn't exist"),
            WSErrorType::TransportConnectionFailure => String::from_str(
                "An error occured while trying to connect transport",
            ),
            WSErrorType::ProducerFailure => String::from_str(
                "An unknown error occured while setting up an RTC producer",
            ),
            WSErrorType::ProducerNotFound(id) => String::from_str("Producer with ID ").concat(
                id.as_str(),
            ).concat(" doesn't exist"),
            WSErrorType::ConsumerFailure => String::from_str(
                "An unknown error occured while setting up an RTC consumer",
            ),
            WSErrorType::ConsumerNotFound(id) => String::from_str("Consumer with ID ").concat(
                id.as_str(),
            ).concat(" doesn't exist"),
        }
    }
}

/// A terminal outcome of a connection. Each variant maps to one numeric
/// wire close code and one fixed reason string.
#[derive(Clone, Copy, Debug, PartialEq, Eq, Structural)]
pub enum WSCloseType {
    /// The received data is unparseable.
    InvalidData,
    /// A client sent a command in the wrong state.
    InvalidState,
    Unauthorized,
    Kicked,
    RoomClosed,
    ServerError,
}

/// The numeric wire close code of a terminal outcome.
pub open spec fn close_code(c: WSCloseType) -> u16 {
    match c {
        WSCloseType::InvalidData => 1003,
        WSCloseType::InvalidState => 1002,
        WSCloseType::Unauthorized => 4001,
        WSCloseType::Kicked => 4003,
        WSCloseType::RoomClosed => 4004,
        WSCloseType::ServerError => 1011,
    }
}

/// The fixed human-readable reason string of a terminal outcome.
pub open spec fn close_reason_chars(c: WSCloseType) -> Seq<char> {
    match c {
        WSCloseType::InvalidData => "Unable to parse data"@,
        WSCloseType::InvalidState => "Command executed in invalid state"@,
        WSCloseType::Unauthorized => "Invalid token"@,
        WSCloseType::Kicked => "You have been kicked!"@,
        WSCloseType::RoomClosed => "Room has been closed"@,
        WSCloseType::ServerError => "Internal Server Error"@,
    }
}

impl WSCloseType {
    /// The numeric close code sent in the close frame.
    pub fn code(&self) -> (r: u16)
        ensures
            r == close_code(*self),
    {
        match self {
            WSCloseType::InvalidData => 1003,
            WSCloseType::InvalidState => 1002,
            WSCloseType::Unauthorized => 4001,
            WSCloseType::Kicked => 4003,
            WSCloseType::RoomClosed => 4004,
            WSCloseType::ServerError => 1011,
        }
    }

    /// The reason string sent in the close frame.
    pub fn reason(&self) -> (r: String)
        ensures
            r@ == close_reason_chars(*self),
    {
        match self {
            WSCloseType::InvalidData => String::from_str("Unable to parse data"),
            WSCloseType::InvalidState => String::from_str("Command executed in invalid state"),
            WSCloseType::Unauthorized => String::from_str("Invalid token"),
            WSCloseType::Kicked => String::from_str("You have been kicked!"),
            WSCloseType::RoomClosed => String::from_str("Room has been closed"),
            WSCloseType::ServerError => String::from_str("Internal Server Error"),
        }
    }
}

/// An in-band error envelope: the triggering command's correlation id and
/// kind name, plus the error's static kind name and rendered message.
pub struct WSError {
    pub id: Option<String>,
    pub command_type: String,
    pub error: String,
    pub message: String,
}

impl WSError {
    /// Builds the envelope for a given command kind name and error.
    pub fn new(id: Option<String>, command_type: &str, error: WSErrorType) -> (r: Self)
        ensures
            r.id == id,
            r.command_type@ == command_type@,
            r.error@ == error_tag_chars(error),
            r.message@ == error_message_chars(error),
    {
        let message = error.message();
        let tag = error.as_tag();
        WSError {
            id,
            command_type: String::from_str(command_type),
            error: String::from_str(tag),
            message,
        }
    }

    /// Builds the envelope that answers `command`, carrying its correlation
    /// id and kind name.
    pub fn from_command(command: WSCommand, error: WSErrorType) -> (r: Self)
        ensures
            r.id == command.id,
            r.command_type@ == command_tag_chars(command_kind(command.command_type)),
            r.error@ == error_tag_chars(error),
            r.message@ == error_message_chars(error),
    {
        let tag = command.command_type.as_tag();
        WSError::new(command.id, tag, error)
    }
}

} // verus!
