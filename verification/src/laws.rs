//! The protocol's laws, stated over [`transition`] and proved once for all
//! inputs. Each is a public proof function whose doc comment states the
//! law in words; together they pin down the behaviour the engine promises
//! to every client and to the room registry.

use vstd::prelude::*;

use crate::error::WSCloseType;
use crate::error::WSErrorType;
use crate::error::close_code;
use crate::messages::CommandTag;
use crate::messages::RoomEvent;
use crate::messages::WSCommand;
use crate::messages::WSCommandType;
use crate::messages::WSEvent;
use crate::messages::WSReply;
use crate::messages::WSReplyType;
use crate::protocol::Action;
use crate::protocol::Frame;
use crate::protocol::Input;
use crate::protocol::Outbound;
use crate::protocol::Phase;
use crate::protocol::Step;
use crate::protocol::accepts;
use crate::protocol::awaits_frames;
use crate::protocol::membership;
use crate::protocol::transition;

verus! {

/// A malformed text payload, in any phase that reads frames, terminates
/// the connection with close code 1003, releases whatever membership the
/// phase holds, and sends no reply: the terminal step carries no envelope.
pub proof fn malformed_payload_closes_invalid_data(p: Phase)
    requires
        awaits_frames(p),
    ensures
        transition(p, Input::Frame(Frame::Malformed)) == (Step::Done {
            close: Some(WSCloseType::InvalidData),
            cleanup: membership(p),
        }),
        close_code(WSCloseType::InvalidData) == 1003,
{
}

/// Any command other than `Authenticate`, sent before authentication,
/// terminates the connection with close code 1002 and no membership to
/// release.
pub proof fn command_before_auth_closes_invalid_state(c: WSCommand)
    requires
        !(c.command_type matches WSCommandType::Authenticate { .. }),
    ensures
        transition(Phase::AwaitAuth, Input::Frame(Frame::Command(c))) == (Step::Done {
            close: Some(WSCloseType::InvalidState),
            cleanup: None,
        }),
        close_code(WSCloseType::InvalidState) == 1002,
{
}

/// Any command other than `InitializeTransports`, sent after
/// authentication but before transport initialization, terminates the
/// connection with close code 1002 and releases the user's membership.
pub proof fn command_before_init_closes_invalid_state(
    room_id: String,
    user_id: String,
    c: WSCommand,
)
    requires
        !(c.command_type matches WSCommandType::InitializeTransports { .. }),
    ensures
        transition(Phase::AwaitInit { room_id, user_id }, Input::Frame(Frame::Command(c)))
            == (Step::Done {
            close: Some(WSCloseType::InvalidState),
            cleanup: Some(user_id),
        }),
        close_code(WSCloseType::InvalidState) == 1002,
{
}

/// Any repeated `Authenticate` or `InitializeTransports` in the active
/// phase terminates the connection with close code 1002.
pub proof fn handshake_command_in_active_closes_invalid_state(
    room_id: String,
    user_id: String,
    c: WSCommand,
)
    requires
        !(c.command_type matches WSCommandType::ConnectTransport { .. }),
        !(c.command_type is RoomInfo),
    ensures
        transition(Phase::Active { room_id, user_id }, Input::Frame(Frame::Command(c)))
            == (Step::Done {
            close: Some(WSCloseType::InvalidState),
            cleanup: Some(user_id),
        }),
{
}

/// An `Authenticate` naming a room that does not exist terminates the
/// connection with close code 4001 and no membership to release: the
/// token is never registered.
pub proof fn unknown_room_closes_unauthorized(
    cmd_id: Option<String>,
    room_id: String,
    token: String,
)
    ensures
        transition(Phase::LookupRoom { cmd_id, room_id, token }, Input::RoomAbsent)
            == (Step::Done {
            close: Some(WSCloseType::Unauthorized),
            cleanup: None,
        }),
        close_code(WSCloseType::Unauthorized) == 4001,
{
}

/// The engine asks the registry to register a token only from the room
/// lookup phase, and only once the lookup found the room: an
/// `Authenticate` for an absent room can have no membership side effect.
pub proof fn register_only_after_room_found(p: Phase, i: Input)
    requires
        accepts(p, i),
    ensures
        (transition(p, i) matches Step::Continue { action: Action::Register { .. }, .. })
            ==> (p matches Phase::LookupRoom { .. } && i is RoomFound),
{
}

/// An invalid token for an existing room terminates the connection with
/// close code 4001, and the user was never added: there is no membership
/// to release.
pub proof fn denied_registration_closes_unauthorized(cmd_id: Option<String>, room_id: String)
    ensures
        transition(Phase::Register { cmd_id, room_id }, Input::RegisterDenied) == (Step::Done {
            close: Some(WSCloseType::Unauthorized),
            cleanup: None,
        }),
        close_code(WSCloseType::Unauthorized) == 4001,
{
}

/// A client that disconnects after authenticating but before completing
/// transport initialization is removed from the room's registry, and the
/// close is clean: no error close code is required.
pub proof fn disconnect_before_init_releases_membership(room_id: String, user_id: String)
    ensures
        transition(Phase::AwaitInit { room_id, user_id }, Input::StreamClosed) == (Step::Done {
            close: None,
            cleanup: Some(user_id),
        }),
{
}

/// Every terminal step hands back for release exactly the membership the
/// phase held: the registered user's id once registration succeeded, and
/// nothing before. The driver releases membership exactly when a terminal
/// step names a user, so release happens exactly once on every exit path.
pub proof fn terminal_cleanup_matches_membership(p: Phase, i: Input)
    requires
        accepts(p, i),
    ensures
        transition(p, i) matches Step::Done { cleanup, .. } ==> cleanup == membership(p),
{
}

/// A non-terminal step preserves the phase's membership, except for the
/// one transition that acquires it: a successful registration, which
/// installs the id the registry assigned. Membership is thus held exactly
/// over the interval from registration to the terminal step.
pub proof fn membership_changes_only_at_registration(p: Phase, i: Input)
    requires
        accepts(p, i),
    ensures
        transition(p, i) matches Step::Continue { phase: p2, .. } ==> (membership(p2)
            == membership(p) || (p matches Phase::Register { .. }
            && i matches Input::Registered { user_id } && membership(p) is None
            && membership(p2) == Some(user_id))),
{
}

/// The stage of the connection's lifecycle a phase belongs to:
/// unauthenticated, authenticated but without a transport, or transport
/// ready.
pub open spec fn stage(p: Phase) -> int {
    match p {
        Phase::AwaitAuth => 0,
        Phase::LookupRoom { .. } => 0,
        Phase::Register { .. } => 0,
        Phase::FetchCaps { .. } => 1,
        Phase::SendAuthReply { .. } => 1,
        Phase::AwaitInit { .. } => 1,
        Phase::InitTransport { .. } => 1,
        Phase::SendInitReply { .. } => 1,
        Phase::OpenSubscription { .. } => 1,
        Phase::Active { .. } => 2,
        Phase::ConnectPending { .. } => 2,
        Phase::RoomInfoPending { .. } => 2,
        Phase::SendActive { .. } => 2,
    }
}

/// The lifecycle only moves forward: no step returns a connection to an
/// earlier stage, so no handshake phase is ever revisited once passed.
pub proof fn stages_move_strictly_forward(p: Phase, i: Input)
    requires
        accepts(p, i),
    ensures
        transition(p, i) matches Step::Continue { phase: p2, .. } ==> stage(p2) >= stage(p),
{
}

/// A failed `ConnectTransport` does not terminate the connection: it
/// produces exactly one in-band error envelope, carrying the command's
/// correlation id, the command's kind, and the transport-connection
/// error kind; once that envelope is sent the connection is back in the
/// active phase and processes further commands.
pub proof fn connect_failure_reported_in_band(
    cmd_id: Option<String>,
    room_id: String,
    user_id: String,
)
    ensures
        transition(Phase::ConnectPending { cmd_id, room_id, user_id }, Input::ConnectFailed)
            == (Step::Continue {
            phase: Phase::SendActive { room_id, user_id },
            action: Action::Send(
                Outbound::Error {
                    id: cmd_id,
                    command: CommandTag::ConnectTransport,
                    error: WSErrorType::TransportConnectionFailure,
                },
            ),
        }),
        transition(Phase::SendActive { room_id, user_id }, Input::SendOk) == (Step::Continue {
            phase: Phase::Active { room_id, user_id },
            action: Action::Poll,
        }),
{
}

/// A `RoomInfo` reply carries exactly the registry snapshot the driver
/// handed over — its keys are exactly the currently-registered user ids —
/// and always reports `video_allowed` as false.
pub proof fn room_info_reply_mirrors_snapshot(
    cmd_id: Option<String>,
    room_id: String,
    user_id: String,
    users: Vec<(String, String)>,
)
    ensures
        transition(Phase::RoomInfoPending { cmd_id, room_id, user_id }, Input::Users { users })
            == (Step::Continue {
            phase: Phase::SendActive { room_id, user_id },
            action: Action::Send(
                Outbound::Reply(
                    WSReply {
                        id: cmd_id,
                        reply_type: WSReplyType::RoomInfo {
                            id: room_id,
                            video_allowed: false,
                            users,
                        },
                    },
                ),
            ),
        }),
{
}

/// A `UserLeft` broadcast naming the connection's own user means the user
/// was forcibly removed elsewhere: the very next step terminates the
/// connection with close code 4003 and releases the membership.
pub proof fn own_user_left_closes_kicked(room_id: String, user_id: String, id: String)
    requires
        id@ == user_id@,
    ensures
        transition(
            Phase::Active { room_id, user_id },
            Input::Broadcast(RoomEvent::UserLeft(id)),
        ) == (Step::Done {
            close: Some(WSCloseType::Kicked),
            cleanup: Some(user_id),
        }),
        close_code(WSCloseType::Kicked) == 4003,
{
}

/// A `RoomDelete` broadcast terminates every connection that receives it
/// with close code 4004, whoever the connection's user is.
pub proof fn room_delete_closes_room_closed(room_id: String, user_id: String)
    ensures
        transition(Phase::Active { room_id, user_id }, Input::Broadcast(RoomEvent::RoomDelete))
            == (Step::Done {
            close: Some(WSCloseType::RoomClosed),
            cleanup: Some(user_id),
        }),
        close_code(WSCloseType::RoomClosed) == 4004,
{
}

/// A join or produce-state broadcast about the connection's own user is
/// suppressed: the engine sends nothing and keeps polling.
pub proof fn own_activity_not_echoed(room_id: String, user_id: String, ev: RoomEvent)
    requires
        match ev {
            RoomEvent::UserJoined(id) => id@ == user_id@,
            RoomEvent::UserStartProduce(id, _) => id@ == user_id@,
            RoomEvent::UserStopProduce(id, _) => id@ == user_id@,
            _ => false,
        },
    ensures
        transition(Phase::Active { room_id, user_id }, Input::Broadcast(ev)) == (Step::Continue {
            phase: Phase::Active { room_id, user_id },
            action: Action::Poll,
        }),
{
}

/// A join broadcast about another user is forwarded to this connection as
/// the matching outbound event.
pub proof fn other_user_joined_forwarded(room_id: String, user_id: String, id: String)
    requires
        id@ != user_id@,
    ensures
        transition(
            Phase::Active { room_id, user_id },
            Input::Broadcast(RoomEvent::UserJoined(id)),
        ) == (Step::Continue {
            phase: Phase::SendActive { room_id, user_id },
            action: Action::Send(Outbound::Event(WSEvent::UserJoined { id })),
        }),
{
}

/// A leave broadcast about another user is forwarded to this connection
/// as the matching outbound event; the connection stays open.
pub proof fn other_user_left_forwarded(room_id: String, user_id: String, id: String)
    requires
        id@ != user_id@,
    ensures
        transition(
            Phase::Active { room_id, user_id },
            Input::Broadcast(RoomEvent::UserLeft(id)),
        ) == (Step::Continue {
            phase: Phase::SendActive { room_id, user_id },
            action: Action::Send(Outbound::Event(WSEvent::UserLeft { id })),
        }),
{
}

/// A produce-start broadcast about another user is forwarded to this
/// connection as the matching outbound event, produce type included.
pub proof fn other_start_produce_forwarded(
    room_id: String,
    user_id: String,
    id: String,
    produce_type: String,
)
    requires
        id@ != user_id@,
    ensures
        transition(
            Phase::Active { room_id, user_id },
            Input::Broadcast(RoomEvent::UserStartProduce(id, produce_type)),
        ) == (Step::Continue {
            phase: Phase::SendActive { room_id, user_id },
            action: Action::Send(Outbound::Event(WSEvent::UserStartProduce { id, produce_type })),
        }),
{
}

/// A produce-stop broadcast about another user is forwarded to this
/// connection as the matching outbound event, produce type included.
pub proof fn other_stop_produce_forwarded(
    room_id: String,
    user_id: String,
    id: String,
    produce_type: String,
)
    requires
        id@ != user_id@,
    ensures
        transition(
            Phase::Active { room_id, user_id },
            Input::Broadcast(RoomEvent::UserStopProduce(id, produce_type)),
        ) == (Step::Continue {
            phase: Phase::SendActive { room_id, user_id },
            action: Action::Send(Outbound::Event(WSEvent::UserStopProduce { id, produce_type })),
        }),
{
}

/// A successfully-applied `Authenticate` produces exactly one reply, at
/// the end of the lookup–register–capabilities chain, and that reply
/// carries exactly the command's correlation id: a present id is echoed
/// unchanged and an absent id stays absent.
pub proof fn authenticate_reply_echoes_command_id(
    id: Option<String>,
    room_id: String,
    token: String,
    user_id: String,
    rtp_capabilities: String,
)
    ensures
        transition(
            Phase::AwaitAuth,
            Input::Frame(
                Frame::Command(
                    WSCommand {
                        id,
                        command_type: WSCommandType::Authenticate { room_id, token },
                    },
                ),
            ),
        ) == (Step::Continue {
            phase: Phase::LookupRoom { cmd_id: id, room_id, token },
            action: Action::LookupRoom { room_id },
        }),
        transition(Phase::LookupRoom { cmd_id: id, room_id, token }, Input::RoomFound)
            == (Step::Continue {
            phase: Phase::Register { cmd_id: id, room_id },
            action: Action::Register { token },
        }),
        transition(Phase::Register { cmd_id: id, room_id }, Input::Registered { user_id })
            == (Step::Continue {
            phase: Phase::FetchCaps { cmd_id: id, room_id, user_id },
            action: Action::GetRtpCapabilities,
        }),
        transition(
            Phase::FetchCaps { cmd_id: id, room_id, user_id },
            Input::Caps { rtp_capabilities },
        ) == (Step::Continue {
            phase: Phase::SendAuthReply { room_id, user_id },
            action: Action::Send(
                Outbound::Reply(
                    WSReply {
                        id,
                        reply_type: WSReplyType::Authenticate {
                            user_id,
                            room_id,
                            rtp_capabilities,
                        },
                    },
                ),
            ),
        }),
{
}

/// A successfully-applied `InitializeTransports` produces exactly one
/// reply, carrying exactly the command's correlation id and the session's
/// reply data.
pub proof fn initialize_reply_echoes_command_id(
    id: Option<String>,
    room_id: String,
    user_id: String,
    init_data: String,
    reply_data: String,
)
    ensures
        transition(
            Phase::AwaitInit { room_id, user_id },
            Input::Frame(
                Frame::Command(
                    WSCommand {
                        id,
                        command_type: WSCommandType::InitializeTransports { init_data },
                    },
                ),
            ),
        ) == (Step::Continue {
            phase: Phase::InitTransport { cmd_id: id, room_id, user_id },
            action: Action::InitializeTransport { init_data },
        }),
        transition(
            Phase::InitTransport { cmd_id: id, room_id, user_id },
            Input::InitOk { reply_data },
        ) == (Step::Continue {
            phase: Phase::SendInitReply { room_id, user_id },
            action: Action::Send(
                Outbound::Reply(
                    WSReply {
                        id,
                        reply_type: WSReplyType::InitializeTransports { reply_data },
                    },
                ),
            ),
        }),
{
}

/// A successfully-applied `ConnectTransport` produces exactly one reply,
/// with an empty payload, carrying exactly the command's correlation id.
pub proof fn connect_reply_echoes_command_id(
    id: Option<String>,
    room_id: String,
    user_id: String,
    connect_data: String,
)
    ensures
        transition(
            Phase::Active { room_id, user_id },
            Input::Frame(
                Frame::Command(
                    WSCommand {
                        id,
                        command_type: WSCommandType::ConnectTransport { connect_data },
                    },
                ),
            ),
        ) == (Step::Continue {
            phase: Phase::ConnectPending { cmd_id: id, room_id, user_id },
            action: Action::ConnectTransport { connect_data },
        }),
        transition(Phase::ConnectPending { cmd_id: id, room_id, user_id }, Input::ConnectOk)
            == (Step::Continue {
            phase: Phase::SendActive { room_id, user_id },
            action: Action::Send(
                Outbound::Reply(WSReply { id, reply_type: WSReplyType::ConnectTransport }),
            ),
        }),
{
}

/// A successfully-applied `RoomInfo` produces exactly one reply, carrying
/// exactly the command's correlation id.
pub proof fn room_info_reply_echoes_command_id(
    id: Option<String>,
    room_id: String,
    user_id: String,
    users: Vec<(String, String)>,
)
    ensures
        transition(
            Phase::Active { room_id, user_id },
            Input::Frame(
                Frame::Command(WSCommand { id, command_type: WSCommandType::RoomInfo }),
            ),
        ) == (Step::Continue {
            phase: Phase::RoomInfoPending { cmd_id: id, room_id, user_id },
            action: Action::SnapshotUsers,
        }),
        transition(Phase::RoomInfoPending { cmd_id: id, room_id, user_id }, Input::Users { users })
            == (Step::Continue {
            phase: Phase::SendActive { room_id, user_id },
            action: Action::Send(
                Outbound::Reply(
                    WSReply {
                        id,
                        reply_type: WSReplyType::RoomInfo { id: room_id, video_allowed: false, users },
                    },
                ),
            ),
        }),
{
}

} // verus!
