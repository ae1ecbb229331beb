use yubihsm::error::SessionError;
use yubihsm::securechannel::command_message::{
    correlation_id, AUTH_SESSION, CREATE_SESSION, ECHO, MAX_WIRE_LENGTH, SESSION_MESSAGE,
};
use yubihsm::securechannel::{
    CommandMessage, CommandType, ResponseCode, ResponseMessage, SessionId,
};

#[test]
fn command_outside_a_session_has_type_length_and_data() {
    let command = CommandMessage::new(CommandType(ECHO), b"Hello, world!".to_vec());
    assert_eq!(command.command_type, CommandType(ECHO));
    assert_eq!(command.session_id, None);
    assert_eq!(command.mac, None);
    let mut expected = vec![0x01, 0x00, 0x0d];
    expected.extend_from_slice(b"Hello, world!");
    assert_eq!(command.serialize(), Ok(expected));
}

#[test]
fn command_without_data_is_three_bytes() {
    let command = CommandMessage::new(CommandType(0x48), Vec::new());
    assert_eq!(command.serialize(), Ok(vec![0x48, 0x00, 0x00]));
}

#[test]
fn command_within_a_session_carries_id_and_mac() {
    let command = CommandMessage::new_with_mac(
        CommandType(SESSION_MESSAGE),
        SessionId(3),
        vec![0xaa, 0xbb],
        [1, 2, 3, 4, 5, 6, 7, 8],
    );
    assert_eq!(
        command.serialize(),
        Ok(vec![0x05, 0x00, 0x0b, 0x03, 0xaa, 0xbb, 1, 2, 3, 4, 5, 6, 7, 8])
    );
}

#[test]
fn command_length_is_big_endian() {
    let command = CommandMessage::new(CommandType(ECHO), vec![0x5a; 0x0102]);
    let bytes = command.serialize().unwrap();
    assert_eq!(bytes.len(), 3 + 0x0102);
    assert_eq!(&bytes[..3], &[0x01, 0x01, 0x02]);
}

#[test]
fn longest_command_fills_the_length_field() {
    let command = CommandMessage::new(CommandType(ECHO), vec![0; MAX_WIRE_LENGTH]);
    let bytes = command.serialize().unwrap();
    assert_eq!(&bytes[..3], &[0x01, 0xff, 0xff]);
    assert_eq!(bytes.len(), 3 + MAX_WIRE_LENGTH);
}

#[test]
fn command_too_long_for_its_envelope_is_refused() {
    let command = CommandMessage::new(CommandType(ECHO), vec![0; MAX_WIRE_LENGTH + 1]);
    assert_eq!(command.serialize(), Err(SessionError::MessageTooLong));
    let sealed = CommandMessage::new_with_mac(
        CommandType(SESSION_MESSAGE),
        SessionId(0),
        vec![0; MAX_WIRE_LENGTH - 8],
        [0; 8],
    );
    assert_eq!(sealed.serialize(), Err(SessionError::MessageTooLong));
}

#[test]
fn commands_get_distinct_correlation_identifiers() {
    let first = CommandMessage::new(CommandType(ECHO), Vec::new());
    let second = CommandMessage::new(CommandType(ECHO), Vec::new());
    assert_ne!(first.uuid, second.uuid);
}

#[test]
fn correlation_identifier_is_made_of_the_bytes_drawn() {
    let drawn = [0xffu8; 16];
    let uuid = correlation_id(Some(drawn));
    assert_eq!(uuid, uuid::Builder::from_random_bytes(drawn).into_uuid());
    assert_eq!(uuid.get_version_num(), 4);
    let mut marked = drawn;
    marked[6] = 0x4f;
    marked[8] = 0xbf;
    assert_eq!(uuid.as_bytes(), &marked);
    assert_ne!(correlation_id(Some([0x11; 16])), uuid);
}

#[test]
fn correlation_identifier_is_made_of_zeros_without_random_bytes() {
    let uuid = correlation_id(None);
    assert_eq!(uuid, correlation_id(Some([0; 16])));
    let mut marked = [0u8; 16];
    marked[6] = 0x40;
    marked[8] = 0x80;
    assert_eq!(uuid.as_bytes(), &marked);
}

#[test]
fn fresh_correlation_identifiers_are_marked_as_random() {
    let command = CommandMessage::new(CommandType(ECHO), Vec::new());
    assert_eq!(command.uuid.get_version_num(), 4);
    assert_eq!(command.uuid.as_bytes()[8] & 0xc0, 0x80);
}

#[test]
fn command_type_is_its_tag() {
    assert_eq!(CommandType::from_u8(0x58), CommandType(0x58));
    assert_eq!(CommandType(AUTH_SESSION).to_u8(), 0x04);
    assert_eq!(CommandType(CREATE_SESSION).to_u8(), 0x03);
}

#[test]
fn response_code_tells_success_and_command() {
    let success = ResponseCode::from_u8(0x81);
    assert!(success.is_success());
    assert_eq!(success.command(), Some(CommandType(ECHO)));
    assert_eq!(success.to_u8(), 0x81);
    let error = ResponseCode::from_u8(0x7f);
    assert!(!error.is_success());
    assert_eq!(error.command(), None);
    assert_eq!(ResponseCode(0x80).command(), Some(CommandType(0)));
    assert_eq!(ResponseCode(0xff).command(), Some(CommandType(0x7f)));
}

#[test]
fn parse_plain_success() {
    let response = ResponseMessage::parse(vec![0x81, 0x00, 0x02, 0xca, 0xfe]).unwrap();
    assert_eq!(response.code, ResponseCode(0x81));
    assert_eq!(response.session_id, None);
    assert_eq!(response.data, vec![0xca, 0xfe]);
    assert_eq!(response.mac, None);
    assert!(!response.is_err());
    assert_eq!(response.command(), Some(CommandType(ECHO)));
}

#[test]
fn parse_empty_success() {
    let response = ResponseMessage::parse(vec![0x84, 0x00, 0x00]).unwrap();
    assert_eq!(response.command(), Some(CommandType(AUTH_SESSION)));
    assert!(response.data.is_empty());
}

#[test]
fn parse_error_status() {
    let response = ResponseMessage::parse(vec![0x7f, 0x00, 0x01, 0x09]).unwrap();
    assert!(response.is_err());
    assert_eq!(response.command(), None);
    assert_eq!(response.code.to_u8(), 0x7f);
    assert_eq!(response.data, vec![0x09]);
    assert_eq!(response.session_id, None);
    assert_eq!(response.mac, None);
}

#[test]
fn parse_session_offer_names_the_session() {
    let mut bytes = vec![0x83, 0x00, 0x11, 0x07];
    bytes.extend_from_slice(&[0x11; 16]);
    let response = ResponseMessage::parse(bytes).unwrap();
    assert_eq!(response.session_id, Some(SessionId(7)));
    assert_eq!(response.data, vec![0x11; 16]);
    assert_eq!(response.mac, None);
}

#[test]
fn parse_session_message_splits_id_data_and_mac() {
    let bytes = vec![0x85, 0x00, 0x0c, 0x02, 0xa, 0xb, 0xc, 1, 2, 3, 4, 5, 6, 7, 8];
    let response = ResponseMessage::parse(bytes).unwrap();
    assert_eq!(response.session_id, Some(SessionId(2)));
    assert_eq!(response.data, vec![0xa, 0xb, 0xc]);
    assert_eq!(response.mac, Some([1, 2, 3, 4, 5, 6, 7, 8]));
}

#[test]
fn parse_session_message_without_data() {
    let bytes = vec![0x85, 0x00, 0x09, 0x02, 1, 2, 3, 4, 5, 6, 7, 8];
    let response = ResponseMessage::parse(bytes).unwrap();
    assert!(response.data.is_empty());
    assert_eq!(response.mac, Some([1, 2, 3, 4, 5, 6, 7, 8]));
}

#[test]
fn parse_rejects_short_buffers() {
    assert_eq!(ResponseMessage::parse(vec![]).err(), Some(SessionError::ProtocolError));
    assert_eq!(ResponseMessage::parse(vec![0x81]).err(), Some(SessionError::ProtocolError));
    assert_eq!(ResponseMessage::parse(vec![0x81, 0x00]).err(), Some(SessionError::ProtocolError));
}

#[test]
fn parse_rejects_length_mismatch() {
    assert_eq!(
        ResponseMessage::parse(vec![0x81, 0x00, 0x02, 0xca]).err(),
        Some(SessionError::ProtocolError)
    );
    assert_eq!(
        ResponseMessage::parse(vec![0x81, 0x00, 0x01, 0xca, 0xfe]).err(),
        Some(SessionError::ProtocolError)
    );
    assert_eq!(
        ResponseMessage::parse(vec![0x81, 0x01, 0x00, 0xca]).err(),
        Some(SessionError::ProtocolError)
    );
}

#[test]
fn parse_rejects_missing_session_id() {
    assert_eq!(
        ResponseMessage::parse(vec![0x83, 0x00, 0x00]).err(),
        Some(SessionError::ProtocolError)
    );
}

#[test]
fn parse_rejects_missing_mac() {
    assert_eq!(
        ResponseMessage::parse(vec![0x85, 0x00, 0x08, 0x01, 1, 2, 3, 4, 5, 6, 7]).err(),
        Some(SessionError::ProtocolError)
    );
    assert_eq!(
        ResponseMessage::parse(vec![0x85, 0x00, 0x00]).err(),
        Some(SessionError::ProtocolError)
    );
}
