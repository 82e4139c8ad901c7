use ws_signal::error::{WSCloseType, WSError, WSErrorType};
use ws_signal::messages::{CommandTag, WSCommand, WSCommandType};

#[test]
fn close_codes_are_the_wire_codes() {
    assert_eq!(WSCloseType::InvalidData.code(), 1003);
    assert_eq!(WSCloseType::InvalidState.code(), 1002);
    assert_eq!(WSCloseType::Unauthorized.code(), 4001);
    assert_eq!(WSCloseType::Kicked.code(), 4003);
    assert_eq!(WSCloseType::RoomClosed.code(), 4004);
    assert_eq!(WSCloseType::ServerError.code(), 1011);
}

#[test]
fn close_reasons_are_fixed_strings() {
    assert_eq!(WSCloseType::InvalidData.reason(), "Unable to parse data");
    assert_eq!(
        WSCloseType::InvalidState.reason(),
        "Command executed in invalid state"
    );
    assert_eq!(WSCloseType::Unauthorized.reason(), "Invalid token");
    assert_eq!(WSCloseType::Kicked.reason(), "You have been kicked!");
    assert_eq!(WSCloseType::RoomClosed.reason(), "Room has been closed");
    assert_eq!(WSCloseType::ServerError.reason(), "Internal Server Error");
}

#[test]
fn error_tags_are_the_kind_names() {
    assert_eq!(
        WSErrorType::UserNotFound(String::from("u1")).as_tag(),
        "UserNotFound"
    );
    assert_eq!(
        WSErrorType::TransportConnectionFailure.as_tag(),
        "TransportConnectionFailure"
    );
    assert_eq!(WSErrorType::ProducerFailure.as_tag(), "ProducerFailure");
    assert_eq!(
        WSErrorType::ProducerNotFound(String::from("p1")).as_tag(),
        "ProducerNotFound"
    );
    assert_eq!(WSErrorType::ConsumerFailure.as_tag(), "ConsumerFailure");
    assert_eq!(
        WSErrorType::ConsumerNotFound(String::from("c1")).as_tag(),
        "ConsumerNotFound"
    );
}

#[test]
fn error_messages_interpolate_the_id() {
    assert_eq!(
        WSErrorType::UserNotFound(String::from("u-17")).message(),
        "User with ID u-17 doesn't exist"
    );
    assert_eq!(
        WSErrorType::TransportConnectionFailure.message(),
        "An error occured while trying to connect transport"
    );
    assert_eq!(
        WSErrorType::ProducerFailure.message(),
        "An unknown error occured while setting up an RTC producer"
    );
    assert_eq!(
        WSErrorType::ProducerNotFound(String::from("p-3")).message(),
        "Producer with ID p-3 doesn't exist"
    );
    assert_eq!(
        WSErrorType::ConsumerFailure.message(),
        "An unknown error occured while setting up an RTC consumer"
    );
    assert_eq!(
        WSErrorType::ConsumerNotFound(String::from("c-9")).message(),
        "Consumer with ID c-9 doesn't exist"
    );
}

#[test]
fn new_builds_the_envelope() {
    let e = WSError::new(
        Some(String::from("corr-1")),
        "ConnectTransport",
        WSErrorType::TransportConnectionFailure,
    );
    assert_eq!(e.id, Some(String::from("corr-1")));
    assert_eq!(e.command_type, "ConnectTransport");
    assert_eq!(e.error, "TransportConnectionFailure");
    assert_eq!(e.message, "An error occured while trying to connect transport");
}

#[test]
fn new_keeps_an_absent_id_absent() {
    let e = WSError::new(None, "RoomInfo", WSErrorType::ProducerFailure);
    assert_eq!(e.id, None);
    assert_eq!(e.command_type, "RoomInfo");
    assert_eq!(e.error, "ProducerFailure");
}

#[test]
fn from_command_takes_id_and_tag_from_the_command() {
    let cmd = WSCommand {
        id: Some(String::from("abc")),
        command_type: WSCommandType::ConnectTransport {
            connect_data: String::from("{}"),
        },
    };
    let e = WSError::from_command(cmd, WSErrorType::TransportConnectionFailure);
    assert_eq!(e.id, Some(String::from("abc")));
    assert_eq!(e.command_type, "ConnectTransport");
    assert_eq!(e.error, "TransportConnectionFailure");
    assert_eq!(e.message, "An error occured while trying to connect transport");
}

#[test]
fn command_tags_name_the_kinds() {
    assert_eq!(CommandTag::Authenticate.as_tag(), "Authenticate");
    assert_eq!(
        CommandTag::InitializeTransports.as_tag(),
        "InitializeTransports"
    );
    assert_eq!(CommandTag::ConnectTransport.as_tag(), "ConnectTransport");
    assert_eq!(CommandTag::RoomInfo.as_tag(), "RoomInfo");
    let auth = WSCommandType::Authenticate {
        room_id: String::from("r"),
        token: String::from("t"),
    };
    assert_eq!(auth.as_tag(), "Authenticate");
    assert_eq!(WSCommandType::RoomInfo.as_tag(), "RoomInfo");
}
