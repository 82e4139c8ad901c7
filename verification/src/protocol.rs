//! The per-connection protocol engine.
//!
//! A connection runs a three-phase handshake (authenticate, initialize
//! transports, open the room subscription) and then an event loop that
//! multiplexes inbound client commands with room-wide broadcast events.
//! The engine is written as an explicit state machine: [`step`] consumes
//! the current [`Phase`] and one [`Input`] (a decoded frame, the outcome of
//! a collaborator call, or a broadcast event) and returns either the next
//! phase together with the [`Action`] the driver must perform, or a
//! terminal outcome carrying an optional close reason and the user whose
//! room membership must be released.
//!
//! The unverified driver owns the socket and the room/RTC collaborators.
//! It performs each requested action — await a frame, look a room up,
//! register a token, send an envelope, connect the transport — and feeds
//! the result back as the next input. Every decision the connection makes
//! lives here; the driver decides nothing.

use vstd::prelude::*;

use crate::error::WSCloseType;
use crate::error::WSErrorType;
use crate::messages::CommandTag;
use crate::messages::RoomEvent;
use crate::messages::WSCommand;
use crate::messages::WSCommandType;
use crate::messages::WSEvent;
use crate::messages::WSReply;
use crate::messages::WSReplyType;

verus! {

/// One inbound frame, after decoding: a parsed command, a text payload
/// that does not parse as a command, or a non-text frame (ping, binary),
/// which the protocol tolerates without answering.
pub enum Frame {
    Command(WSCommand),
    Malformed,
    NonText,
}

/// One input to the engine: an inbound frame or stream condition, the
/// outcome of a collaborator call the engine asked for, or a room
/// broadcast event.
pub enum Input {
    /// The next inbound frame.
    Frame(Frame),
    /// The inbound stream ended: the client disconnected.
    StreamClosed,
    /// Receiving from the stream failed at the transport level.
    RecvFailed,
    /// The room lookup found the room.
    RoomFound,
    /// The room lookup found no room under the given id.
    RoomAbsent,
    /// The token was registered; the registry assigned this user id.
    Registered { user_id: String },
    /// The registry rejected the token.
    RegisterDenied,
    /// The room's router reported its RTP capabilities.
    Caps { rtp_capabilities: String },
    /// The room has no router (already torn down).
    NoRouter,
    /// The transport session was initialized; this is its reply data.
    InitOk { reply_data: String },
    /// Initializing the transport session failed.
    InitFailed,
    /// The requested outbound send completed.
    SendOk,
    /// The requested outbound send failed at the transport level.
    SendFailed,
    /// The room broadcast subscription was opened.
    SubscribeOk,
    /// The room has no subscribable broadcast stream.
    SubscribeFailed,
    /// Connecting the session's transport succeeded.
    ConnectOk,
    /// Connecting the session's transport failed.
    ConnectFailed,
    /// The snapshot of the room's registry: each registered user's id with
    /// its public info projection.
    Users { users: Vec<(String, String)> },
    /// The next room broadcast event.
    Broadcast(RoomEvent),
    /// The broadcast subscription failed mid-loop.
    BroadcastFailed,
}

/// An outbound envelope the engine asks the driver to send.
pub enum Outbound {
    Reply(WSReply),
    Event(WSEvent),
    /// An in-band error report: the triggering command's correlation id
    /// and kind, and the error kind. The driver renders it with
    /// [`crate::error::WSError::new`].
    Error { id: Option<String>, command: CommandTag, error: WSErrorType },
}

/// The action the driver must perform next; its outcome is the next
/// [`Input`].
pub enum Action {
    /// Await the next inbound frame (or, in the active phase, the next
    /// broadcast event, whichever is ready first).
    Poll,
    /// Look the room up by id.
    LookupRoom { room_id: String },
    /// Register the token against the room's user registry.
    Register { token: String },
    /// Ask the room's router for its RTP capabilities.
    GetRtpCapabilities,
    /// Initialize a transport session from the room's router and this
    /// client-supplied data.
    InitializeTransport { init_data: String },
    /// Send an outbound envelope.
    Send(Outbound),
    /// Open the room's broadcast subscription.
    Subscribe,
    /// Connect the session's transport with this client-supplied data.
    ConnectTransport { connect_data: String },
    /// Snapshot the room registry's current users.
    SnapshotUsers,
}

/// The connection's phase. Transitions are strictly forward: no phase is
/// ever revisited once left, except that the active-phase states cycle
/// among themselves until a terminal outcome.
pub enum Phase {
    /// Unauthenticated: awaiting the `Authenticate` command.
    AwaitAuth,
    /// Looking the requested room up.
    LookupRoom { cmd_id: Option<String>, room_id: String, token: String },
    /// Registering the token against the room's registry.
    Register { cmd_id: Option<String>, room_id: String },
    /// Registered: fetching the router's RTP capabilities for the reply.
    FetchCaps { cmd_id: Option<String>, room_id: String, user_id: String },
    /// Sending the `Authenticate` reply.
    SendAuthReply { room_id: String, user_id: String },
    /// Authenticated: awaiting the `InitializeTransports` command.
    AwaitInit { room_id: String, user_id: String },
    /// Initializing the transport session.
    InitTransport { cmd_id: Option<String>, room_id: String, user_id: String },
    /// Sending the `InitializeTransports` reply.
    SendInitReply { room_id: String, user_id: String },
    /// Opening the room's broadcast subscription.
    OpenSubscription { room_id: String, user_id: String },
    /// Active: awaiting whichever of the next command or the next
    /// broadcast event arrives first.
    Active { room_id: String, user_id: String },
    /// Connecting the session's transport.
    ConnectPending { cmd_id: Option<String>, room_id: String, user_id: String },
    /// Snapshotting the room registry for a `RoomInfo` reply.
    RoomInfoPending { cmd_id: Option<String>, room_id: String, user_id: String },
    /// Sending an envelope from the active phase.
    SendActive { room_id: String, user_id: String },
}

/// The engine's verdict on one input: continue in a new phase with an
/// action to perform, or terminate. A terminal step carries the close
/// reason to put in the close frame (`None` for a clean close) and the
/// user whose room membership must now be released (`None` when none was
/// ever acquired). A terminal step never carries an envelope to send: a
/// failed connection is answered by its close frame alone.
pub enum Step {
    Continue { phase: Phase, action: Action },
    Done { close: Option<WSCloseType>, cleanup: Option<String> },
}

/// Inputs that originate from the connection's own inbound stream.
pub open spec fn from_connection(i: Input) -> bool {
    ||| i matches Input::Frame(_)
    ||| i is StreamClosed
    ||| i is RecvFailed
}

/// The phases in which the engine awaits inbound frames.
pub open spec fn awaits_frames(p: Phase) -> bool {
    ||| p is AwaitAuth
    ||| p matches Phase::AwaitInit { .. }
    ||| p matches Phase::Active { .. }
}

/// Which inputs are meaningful in which phase. The driver only ever hands
/// the engine the outcome of the action the engine just asked for, so
/// every call of [`step`] satisfies this.
pub open spec fn accepts(p: Phase, i: Input) -> bool {
    match p {
        Phase::AwaitAuth => from_connection(i),
        Phase::LookupRoom { .. } => i is RoomFound || i is RoomAbsent,
        Phase::Register { .. } => i matches Input::Registered { .. } || i is RegisterDenied,
        Phase::FetchCaps { .. } => i matches Input::Caps { .. } || i is NoRouter,
        Phase::SendAuthReply { .. } => i is SendOk || i is SendFailed,
        Phase::AwaitInit { .. } => from_connection(i),
        Phase::InitTransport { .. } => i matches Input::InitOk { .. } || i is InitFailed
            || i is NoRouter,
        Phase::SendInitReply { .. } => i is SendOk || i is SendFailed,
        Phase::OpenSubscription { .. } => i is SubscribeOk || i is SubscribeFailed,
        Phase::Active { .. } => from_connection(i) || i matches Input::Broadcast(_)
            || i is BroadcastFailed,
        Phase::ConnectPending { .. } => i is ConnectOk || i is ConnectFailed,
        Phase::RoomInfoPending { .. } => i matches Input::Users { .. },
        Phase::SendActive { .. } => i is SendOk || i is SendFailed,
    }
}

/// The room membership a phase holds: the registered user's id, from the
/// moment registration succeeds until the terminal step hands it back for
/// release.
pub open spec fn membership(p: Phase) -> Option<String> {
    match p {
        Phase::AwaitAuth => None,
        Phase::LookupRoom { .. } => None,
        Phase::Register { .. } => None,
        Phase::FetchCaps { user_id, .. } => Some(user_id),
        Phase::SendAuthReply { user_id, .. } => Some(user_id),
        Phase::AwaitInit { user_id, .. } => Some(user_id),
        Phase::InitTransport { user_id, .. } => Some(user_id),
        Phase::SendInitReply { user_id, .. } => Some(user_id),
        Phase::OpenSubscription { user_id, .. } => Some(user_id),
        Phase::Active { user_id, .. } => Some(user_id),
        Phase::ConnectPending { user_id, .. } => Some(user_id),
        Phase::RoomInfoPending { user_id, .. } => Some(user_id),
        Phase::SendActive { user_id, .. } => Some(user_id),
    }
}

/// The engine's transition function: what [`step`] returns on every
/// accepted phase/input pair. The inner wildcard arms cover only pairs
/// that [`accepts`] excludes; their value is never taken.
pub open spec fn transition(p: Phase, i: Input) -> Step {
    match p {
        Phase::AwaitAuth => match i {
            Input::Frame(Frame::NonText) => Step::Continue {
                phase: Phase::AwaitAuth,
                action: Action::Poll,
            },
            Input::Frame(Frame::Malformed) => Step::Done {
                close: Some(WSCloseType::InvalidData),
                cleanup: None,
            },
            Input::Frame(Frame::Command(c)) => match c.command_type {
                WSCommandType::Authenticate { room_id, token } => Step::Continue {
                    phase: Phase::LookupRoom { cmd_id: c.id, room_id, token },
                    action: Action::LookupRoom { room_id },
                },
                _ => Step::Done { close: Some(WSCloseType::InvalidState), cleanup: None },
            },
            Input::StreamClosed => Step::Done { close: None, cleanup: None },
            Input::RecvFailed => Step::Done {
                close: Some(WSCloseType::ServerError),
                cleanup: None,
            },
            _ => Step::Done { close: None, cleanup: None },
        },
        Phase::LookupRoom { cmd_id, room_id, token } => match i {
            Input::RoomFound => Step::Continue {
                phase: Phase::Register { cmd_id, room_id },
                action: Action::Register { token },
            },
            Input::RoomAbsent => Step::Done {
                close: Some(WSCloseType::Unauthorized),
                cleanup: None,
            },
            _ => Step::Done { close: None, cleanup: None },
        },
        Phase::Register { cmd_id, room_id } => match i {
            Input::Registered { user_id } => Step::Continue {
                phase: Phase::FetchCaps { cmd_id, room_id, user_id },
                action: Action::GetRtpCapabilities,
            },
            Input::RegisterDenied => Step::Done {
                close: Some(WSCloseType::Unauthorized),
                cleanup: None,
            },
            _ => Step::Done { close: None, cleanup: None },
        },
        Phase::FetchCaps { cmd_id, room_id, user_id } => match i {
            Input::Caps { rtp_capabilities } => Step::Continue {
                phase: Phase::SendAuthReply { room_id, user_id },
                action: Action::Send(
                    Outbound::Reply(
                        WSReply {
                            id: cmd_id,
                            reply_type: WSReplyType::Authenticate {
                                user_id,
                                room_id,
                                rtp_capabilities,
                            },
                        },
                    ),
                ),
            },
            Input::NoRouter => Step::Done {
                close: Some(WSCloseType::RoomClosed),
                cleanup: Some(user_id),
            },
            _ => Step::Done { close: None, cleanup: None },
        },
        Phase::SendAuthReply { room_id, user_id } => match i {
            Input::SendOk => Step::Continue {
                phase: Phase::AwaitInit { room_id, user_id },
                action: Action::Poll,
            },
            Input::SendFailed => Step::Done {
                close: Some(WSCloseType::ServerError),
                cleanup: Some(user_id),
            },
            _ => Step::Done { close: None, cleanup: None },
        },
        Phase::AwaitInit { room_id, user_id } => match i {
            Input::Frame(Frame::NonText) => Step::Continue {
                phase: Phase::AwaitInit { room_id, user_id },
                action: Action::Poll,
            },
            Input::Frame(Frame::Malformed) => Step::Done {
                close: Some(WSCloseType::InvalidData),
                cleanup: Some(user_id),
            },
            Input::Frame(Frame::Command(c)) => match c.command_type {
                WSCommandType::InitializeTransports { init_data } => Step::Continue {
                    phase: Phase::InitTransport { cmd_id: c.id, room_id, user_id },
                    action: Action::InitializeTransport { init_data },
                },
                _ => Step::Done {
                    close: Some(WSCloseType::InvalidState),
                    cleanup: Some(user_id),
                },
            },
            Input::StreamClosed => Step::Done { close: None, cleanup: Some(user_id) },
            Input::RecvFailed => Step::Done {
                close: Some(WSCloseType::ServerError),
                cleanup: Some(user_id),
            },
            _ => Step::Done { close: None, cleanup: None },
        },
        Phase::InitTransport { cmd_id, room_id, user_id } => match i {
            Input::InitOk { reply_data } => Step::Continue {
                phase: Phase::SendInitReply { room_id, user_id },
                action: Action::Send(
                    Outbound::Reply(
                        WSReply {
                            id: cmd_id,
                            reply_type: WSReplyType::InitializeTransports { reply_data },
                        },
                    ),
                ),
            },
            Input::NoRouter => Step::Done {
                close: Some(WSCloseType::RoomClosed),
                cleanup: Some(user_id),
            },
            Input::InitFailed => Step::Done {
                close: Some(WSCloseType::ServerError),
                cleanup: Some(user_id),
            },
            _ => Step::Done { close: None, cleanup: None },
        },
        Phase::SendInitReply { room_id, user_id } => match i {
            Input::SendOk => Step::Continue {
                phase: Phase::OpenSubscription { room_id, user_id },
                action: Action::Subscribe,
            },
            Input::SendFailed => Step::Done {
                close: Some(WSCloseType::ServerError),
                cleanup: Some(user_id),
            },
            _ => Step::Done { close: None, cleanup: None },
        },
        Phase::OpenSubscription { room_id, user_id } => match i {
            Input::SubscribeOk => Step::Continue {
                phase: Phase::Active { room_id, user_id },
                action: Action::Poll,
            },
            Input::SubscribeFailed => Step::Done {
                close: Some(WSCloseType::RoomClosed),
                cleanup: Some(user_id),
            },
            _ => Step::Done { close: None, cleanup: None },
        },
        Phase::Active { room_id, user_id } => match i {
            Input::Frame(Frame::NonText) => Step::Continue {
                phase: Phase::Active { room_id, user_id },
                action: Action::Poll,
            },
            Input::Frame(Frame::Malformed) => Step::Done {
                close: Some(WSCloseType::InvalidData),
                cleanup: Some(user_id),
            },
            Input::Frame(Frame::Command(c)) => match c.command_type {
                WSCommandType::ConnectTransport { connect_data } => Step::Continue {
                    phase: Phase::ConnectPending { cmd_id: c.id, room_id, user_id },
                    action: Action::ConnectTransport { connect_data },
                },
                WSCommandType::RoomInfo => Step::Continue {
                    phase: Phase::RoomInfoPending { cmd_id: c.id, room_id, user_id },
                    action: Action::SnapshotUsers,
                },
                _ => Step::Done {
                    close: Some(WSCloseType::InvalidState),
                    cleanup: Some(user_id),
                },
            },
            Input::StreamClosed => Step::Done { close: None, cleanup: Some(user_id) },
            Input::RecvFailed => Step::Done {
                close: Some(WSCloseType::ServerError),
                cleanup: Some(user_id),
            },
            Input::Broadcast(ev) => match ev {
                RoomEvent::UserJoined(id) => if id@ == user_id@ {
                    Step::Continue {
                        phase: Phase::Active { room_id, user_id },
                        action: Action::Poll,
                    }
                } else {
                    Step::Continue {
                        phase: Phase::SendActive { room_id, user_id },
                        action: Action::Send(Outbound::Event(WSEvent::UserJoined { id })),
                    }
                },
                RoomEvent::UserLeft(id) => if id@ == user_id@ {
                    Step::Done { close: Some(WSCloseType::Kicked), cleanup: Some(user_id) }
                } else {
                    Step::Continue {
                        phase: Phase::SendActive { room_id, user_id },
                        action: Action::Send(Outbound::Event(WSEvent::UserLeft { id })),
                    }
                },
                RoomEvent::UserStartProduce(id, produce_type) => if id@ == user_id@ {
                    Step::Continue {
                        phase: Phase::Active { room_id, user_id },
                        action: Action::Poll,
                    }
                } else {
                    Step::Continue {
                        phase: Phase::SendActive { room_id, user_id },
                        action: Action::Send(
                            Outbound::Event(WSEvent::UserStartProduce { id, produce_type }),
                        ),
                    }
                },
                RoomEvent::UserStopProduce(id, produce_type) => if id@ == user_id@ {
                    Step::Continue {
                        phase: Phase::Active { room_id, user_id },
                        action: Action::Poll,
                    }
                } else {
                    Step::Continue {
                        phase: Phase::SendActive { room_id, user_id },
                        action: Action::Send(
                            Outbound::Event(WSEvent::UserStopProduce { id, produce_type }),
                        ),
                    }
                },
                RoomEvent::RoomDelete => Step::Done {
                    close: Some(WSCloseType::RoomClosed),
                    cleanup: Some(user_id),
                },
            },
            Input::BroadcastFailed => Step::Done {
                close: Some(WSCloseType::ServerError),
                cleanup: Some(user_id),
            },
            _ => Step::Done { close: None, cleanup: None },
        },
        Phase::ConnectPending { cmd_id, room_id, user_id } => match i {
            Input::ConnectOk => Step::Continue {
                phase: Phase::SendActive { room_id, user_id },
                action: Action::Send(
                    Outbound::Reply(WSReply { id: cmd_id, reply_type: WSReplyType::ConnectTransport }),
                ),
            },
            Input::ConnectFailed => Step::Continue {
                phase: Phase::SendActive { room_id, user_id },
                action: Action::Send(
                    Outbound::Error {
                        id: cmd_id,
                        command: CommandTag::ConnectTransport,
                        error: WSErrorType::TransportConnectionFailure,
                    },
                ),
            },
            _ => Step::Done { close: None, cleanup: None },
        },
        Phase::RoomInfoPending { cmd_id, room_id, user_id } => match i {
            Input::Users { users } => Step::Continue {
                phase: Phase::SendActive { room_id, user_id },
                action: Action::Send(
                    Outbound::Reply(
                        WSReply {
                            id: cmd_id,
                            reply_type: WSReplyType::RoomInfo {
                                id: room_id,
                                video_allowed: false,
                                users,
                            },
                        },
                    ),
                ),
            },
            _ => Step::Done { close: None, cleanup: None },
        },
        Phase::SendActive { room_id, user_id } => match i {
            Input::SendOk => Step::Continue {
                phase: Phase::Active { room_id, user_id },
                action: Action::Poll,
            },
            Input::SendFailed => Step::Done {
                close: Some(WSCloseType::ServerError),
                cleanup: Some(user_id),
            },
            _ => Step::Done { close: None, cleanup: None },
        },
    }
}

/// Runs the engine for one input: exactly the verdict of [`transition`].
pub fn step(phase: Phase, input: Input) -> (r: Step)
    requires
        accepts(phase, input),
    ensures
        r == transition(phase, input),
{
    match phase {
        Phase::AwaitAuth => match input {
            Input::Frame(Frame::NonText) => Step::Continue {
                phase: Phase::AwaitAuth,
                action: Action::Poll,
            },
            Input::Frame(Frame::Malformed) => Step::Done {
                close: Some(WSCloseType::InvalidData),
                cleanup: None,
            },
            Input::Frame(Frame::Command(c)) => {
                let WSCommand { id, command_type } = c;
                match command_type {
                    WSCommandType::Authenticate { room_id, token } => {
                        let requested = room_id.clone();
                        Step::Continue {
                            phase: Phase::LookupRoom { cmd_id: id, room_id, token },
                            action: Action::LookupRoom { room_id: requested },
                        }
                    },
                    _ => Step::Done { close: Some(WSCloseType::InvalidState), cleanup: None },
                }
            },
            Input::StreamClosed => Step::Done { close: None, cleanup: None },
            Input::RecvFailed => Step::Done {
                close: Some(WSCloseType::ServerError),
                cleanup: None,
            },
            _ => vstd::pervasive::unreached(),
        },
        Phase::LookupRoom { cmd_id, room_id, token } => match input {
            Input::RoomFound => Step::Continue {
                phase: Phase::Register { cmd_id, room_id },
                action: Action::Register { token },
            },
            Input::RoomAbsent => Step::Done {
                close: Some(WSCloseType::Unauthorized),
                cleanup: None,
            },
            _ => vstd::pervasive::unreached(),
        },
        Phase::Register { cmd_id, room_id } => match input {
            Input::Registered { user_id } => Step::Continue {
                phase: Phase::FetchCaps { cmd_id, room_id, user_id },
                action: Action::GetRtpCapabilities,
            },
            Input::RegisterDenied => Step::Done {
                close: Some(WSCloseType::Unauthorized),
                cleanup: None,
            },
            _ => vstd::pervasive::unreached(),
        },
        Phase::FetchCaps { cmd_id, room_id, user_id } => match input {
            Input::Caps { rtp_capabilities } => {
                let own_room = room_id.clone();
                let own_user = user_id.clone();
                Step::Continue {
                    phase: Phase::SendAuthReply { room_id: own_room, user_id: own_user },
                    action: Action::Send(
                        Outbound::Reply(
                            WSReply {
                                id: cmd_id,
                                reply_type: WSReplyType::Authenticate {
                                    user_id,
                                    room_id,
                                    rtp_capabilities,
                                },
                            },
                        ),
                    ),
                }
            },
            Input::NoRouter => Step::Done {
                close: Some(WSCloseType::RoomClosed),
                cleanup: Some(user_id),
            },
            _ => vstd::pervasive::unreached(),
        },
        Phase::SendAuthReply { room_id, user_id } => match input {
            Input::SendOk => Step::Continue {
                phase: Phase::AwaitInit { room_id, user_id },
                action: Action::Poll,
            },
            Input::SendFailed => Step::Done {
                close: Some(WSCloseType::ServerError),
                cleanup: Some(user_id),
            },
            _ => vstd::pervasive::unreached(),
        },
        Phase::AwaitInit { room_id, user_id } => match input {
            Input::Frame(Frame::NonText) => Step::Continue {
                phase: Phase::AwaitInit { room_id, user_id },
                action: Action::Poll,
            },
            Input::Frame(Frame::Malformed) => Step::Done {
                close: Some(WSCloseType::InvalidData),
                cleanup: Some(user_id),
            },
            Input::Frame(Frame::Command(c)) => {
                let WSCommand { id, command_type } = c;
                match command_type {
                    WSCommandType::InitializeTransports { init_data } => Step::Continue {
                        phase: Phase::InitTransport { cmd_id: id, room_id, user_id },
                        action: Action::InitializeTransport { init_data },
                    },
                    _ => Step::Done {
                        close: Some(WSCloseType::InvalidState),
                        cleanup: Some(user_id),
                    },
                }
            },
            Input::StreamClosed => Step::Done { close: None, cleanup: Some(user_id) },
            Input::RecvFailed => Step::Done {
                close: Some(WSCloseType::ServerError),
                cleanup: Some(user_id),
            },
            _ => vstd::pervasive::unreached(),
        },
        Phase::InitTransport { cmd_id, room_id, user_id } => match input {
            Input::InitOk { reply_data } => Step::Continue {
                phase: Phase::SendInitReply { room_id, user_id },
                action: Action::Send(
                    Outbound::Reply(
                        WSReply {
                            id: cmd_id,
                            reply_type: WSReplyType::InitializeTransports { reply_data },
                        },
                    ),
                ),
            },
            Input::NoRouter => Step::Done {
                close: Some(WSCloseType::RoomClosed),
                cleanup: Some(user_id),
            },
            Input::InitFailed => Step::Done {
                close: Some(WSCloseType::ServerError),
                cleanup: Some(user_id),
            },
            _ => vstd::pervasive::unreached(),
        },
        Phase::SendInitReply { room_id, user_id } => match input {
            Input::SendOk => Step::Continue {
                phase: Phase::OpenSubscription { room_id, user_id },
                action: Action::Subscribe,
            },
            Input::SendFailed => Step::Done {
                close: Some(WSCloseType::ServerError),
                cleanup: Some(user_id),
            },
            _ => vstd::pervasive::unreached(),
        },
        Phase::OpenSubscription { room_id, user_id } => match input {
            Input::SubscribeOk => Step::Continue {
                phase: Phase::Active { room_id, user_id },
                action: Action::Poll,
            },
            Input::SubscribeFailed => Step::Done {
                close: Some(WSCloseType::RoomClosed),
                cleanup: Some(user_id),
            },
            _ => vstd::pervasive::unreached(),
        },
        Phase::Active { room_id, user_id } => match input {
            Input::Frame(Frame::NonText) => Step::Continue {
                phase: Phase::Active { room_id, user_id },
                action: Action::Poll,
            },
            Input::Frame(Frame::Malformed) => Step::Done {
                close: Some(WSCloseType::InvalidData),
                cleanup: Some(user_id),
            },
            Input::Frame(Frame::Command(c)) => {
                let WSCommand { id, command_type } = c;
                match command_type {
                    WSCommandType::ConnectTransport { connect_data } => Step::Continue {
                        phase: Phase::ConnectPending { cmd_id: id, room_id, user_id },
                        action: Action::ConnectTransport { connect_data },
                    },
                    WSCommandType::RoomInfo => Step::Continue {
                        phase: Phase::RoomInfoPending { cmd_id: id, room_id, user_id },
                        action: Action::SnapshotUsers,
                    },
                    _ => Step::Done {
                        close: Some(WSCloseType::InvalidState),
                        cleanup: Some(user_id),
                    },
                }
            },
            Input::StreamClosed => Step::Done { close: None, cleanup: Some(user_id) },
            Input::RecvFailed => Step::Done {
                close: Some(WSCloseType::ServerError),
                cleanup: Some(user_id),
            },
            Input::Broadcast(ev) => match ev {
                RoomEvent::UserJoined(id) => if id == user_id {
                    Step::Continue {
                        phase: Phase::Active { room_id, user_id },
                        action: Action::Poll,
                    }
                } else {
                    Step::Continue {
                        phase: Phase::SendActive { room_id, user_id },
                        action: Action::Send(Outbound::Event(WSEvent::UserJoined { id })),
                    }
                },
                RoomEvent::UserLeft(id) => if id == user_id {
                    Step::Done { close: Some(WSCloseType::Kicked), cleanup: Some(user_id) }
                } else {
                    Step::Continue {
                        phase: Phase::SendActive { room_id, user_id },
                        action: Action::Send(Outbound::Event(WSEvent::UserLeft { id })),
                    }
                },
                RoomEvent::UserStartProduce(id, produce_type) => if id == user_id {
                    Step::Continue {
                        phase: Phase::Active { room_id, user_id },
                        action: Action::Poll,
                    }
                } else {
                    Step::Continue {
                        phase: Phase::SendActive { room_id, user_id },
                        action: Action::Send(
                            Outbound::Event(WSEvent::UserStartProduce { id, produce_type }),
                        ),
                    }
                },
                RoomEvent::UserStopProduce(id, produce_type) => if id == user_id {
                    Step::Continue {
                        phase: Phase::Active { room_id, user_id },
                        action: Action::Poll,
                    }
                } else {
                    Step::Continue {
                        phase: Phase::SendActive { room_id, user_id },
                        action: Action::Send(
                            Outbound::Event(WSEvent::UserStopProduce { id, produce_type }),
                        ),
                    }
                },
                RoomEvent::RoomDelete => Step::Done {
                    close: Some(WSCloseType::RoomClosed),
                    cleanup: Some(user_id),
                },
            },
            Input::BroadcastFailed => Step::Done {
                close: Some(WSCloseType::ServerError),
                cleanup: Some(user_id),
            },
            _ => vstd::pervasive::unreached(),
        },
        Phase::ConnectPending { cmd_id, room_id, user_id } => match input {
            Input::ConnectOk => Step::Continue {
                phase: Phase::SendActive { room_id, user_id },
                action: Action::Send(
                    Outbound::Reply(
                        WSReply { id: cmd_id, reply_type: WSReplyType::ConnectTransport },
                    ),
                ),
            },
            Input::ConnectFailed => Step::Continue {
                phase: Phase::SendActive { room_id, user_id },
                action: Action::Send(
                    Outbound::Error {
                        id: cmd_id,
                        command: CommandTag::ConnectTransport,
                        error: WSErrorType::TransportConnectionFailure,
                    },
                ),
            },
            _ => vstd::pervasive::unreached(),
        },
        Phase::RoomInfoPending { cmd_id, room_id, user_id } => match input {
            Input::Users { users } => {
                let own_room = room_id.clone();
                Step::Continue {
                    phase: Phase::SendActive { room_id: own_room, user_id },
                    action: Action::Send(
                        Outbound::Reply(
                            WSReply {
                                id: cmd_id,
                                reply_type: WSReplyType::RoomInfo {
                                    id: room_id,
                                    video_allowed: false,
                                    users,
                                },
                            },
                        ),
                    ),
                }
            },
            _ => vstd::pervasive::unreached(),
        },
        Phase::SendActive { room_id, user_id } => match input {
            Input::SendOk => Step::Continue {
                phase: Phase::Active { room_id, user_id },
                action: Action::Poll,
            },
            Input::SendFailed => Step::Done {
                close: Some(WSCloseType::ServerError),
                cleanup: Some(user_id),
            },
            _ => vstd::pervasive::unreached(),
        },
    }
}

} // verus!
