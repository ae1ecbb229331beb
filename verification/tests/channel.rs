use yubihsm::credentials::AuthKey;
use yubihsm::error::SessionError;
use yubihsm::securechannel::command_message::{AUTH_SESSION, ECHO, SESSION_MESSAGE};
use yubihsm::securechannel::kdf::{
    compute_card_cryptogram, compute_host_cryptogram, context_of, derive_cryptogram, derive_key,
    derive_session_keys,
};
use yubihsm::securechannel::{
    Challenge, ChannelState, CommandMessage, CommandType, Cryptogram, ResponseMessage,
    SecureChannel, SessionId,
};

// The authentication key that PBKDF2-HMAC-SHA256 derives from "password"
// with the salt "Yubico" in 10000 rounds.
const AUTH_KEY: [u8; 32] = [
    0x09, 0x0b, 0x47, 0xdb, 0xed, 0x59, 0x56, 0x54, 0x90, 0x1d, 0xee, 0x1c, 0xc6, 0x55, 0xe4, 0x20,
    0x59, 0x2f, 0xd4, 0x83, 0xf7, 0x59, 0xe2, 0x99, 0x09, 0xa0, 0x4c, 0x45, 0x05, 0xd2, 0xce, 0x0a,
];
const HOST_CHALLENGE: [u8; 8] = [0x00, 0x01, 0x02, 0x03, 0x04, 0x05, 0x06, 0x07];
const CARD_CHALLENGE: [u8; 8] = [0x10, 0x11, 0x12, 0x13, 0x14, 0x15, 0x16, 0x17];

// Expected values, computed independently with AES-CMAC and AES-CBC.
const ENC_KEY: [u8; 16] = [
    0x88, 0x13, 0xba, 0x3b, 0xdf, 0x9b, 0x3f, 0x1f, 0xbe, 0x1a, 0xd4, 0xd4, 0xb6, 0xa0, 0x36, 0x16,
];
const MAC_KEY: [u8; 16] = [
    0xc0, 0x10, 0x68, 0x4e, 0xf2, 0xde, 0x82, 0x34, 0x65, 0x77, 0x18, 0xf9, 0x4c, 0x0f, 0xa6, 0x47,
];
const RMAC_KEY: [u8; 16] = [
    0x6e, 0xc2, 0x95, 0x58, 0xf6, 0xdf, 0x7a, 0x50, 0x1f, 0xbe, 0x04, 0x3a, 0xec, 0x8f, 0xc2, 0x85,
];
const CARD_CRYPTOGRAM: [u8; 8] = [0xd8, 0xed, 0x4f, 0xa8, 0x7c, 0x52, 0x7b, 0xeb];
const HOST_CRYPTOGRAM: [u8; 8] = [0x57, 0xd2, 0x4b, 0x1f, 0xe5, 0xe0, 0x76, 0xd2];
const CARD_CRYPTOGRAM_OF_ZERO_KEY: [u8; 8] = [0x3a, 0xaf, 0xfc, 0xb4, 0x58, 0x7a, 0xea, 0xa2];
const CARD_CRYPTOGRAM_AFTER_TERMINATION: [u8; 8] = [0x03, 0xa3, 0x41, 0x8c, 0xd7, 0x07, 0x73, 0x0f];
const AUTH_COMMAND: [u8; 20] = [
    0x04, 0x00, 0x11, 0x01, 0x57, 0xd2, 0x4b, 0x1f, 0xe5, 0xe0, 0x76, 0xd2, 0x7f, 0x50, 0xc8, 0x6d,
    0x8c, 0x4b, 0x00, 0xa4,
];
const ECHO_SEALED: [u8; 44] = [
    0x05, 0x00, 0x29, 0x01, 0x5f, 0x1b, 0x44, 0x6b, 0x69, 0x7c, 0x33, 0xd6, 0x38, 0x40, 0x3e, 0xbc,
    0xab, 0xf7, 0x91, 0x93, 0xb4, 0x15, 0xb3, 0xce, 0x5c, 0xa1, 0x79, 0xb8, 0x16, 0xa5, 0xb5, 0xfa,
    0x35, 0xf7, 0x31, 0x1f, 0xb1, 0xe6, 0x03, 0x7e, 0xa1, 0x05, 0xa5, 0xd4,
];
const ECHO_RESPONSE: [u8; 44] = [
    0x85, 0x00, 0x29, 0x01, 0x04, 0xab, 0xc5, 0x9b, 0x6d, 0xf6, 0x70, 0xcd, 0x49, 0x3b, 0xa7, 0x0b,
    0xaa, 0x67, 0x5c, 0xd3, 0x65, 0xa2, 0x31, 0x29, 0xeb, 0x9d, 0xa0, 0x0e, 0x0a, 0x3f, 0xe4, 0xe1,
    0x8b, 0x50, 0x3a, 0x91, 0xc3, 0x57, 0xc1, 0xea, 0xde, 0x11, 0xab, 0xe0,
];
const SECOND_ECHO_SEALED: [u8; 28] = [
    0x05, 0x00, 0x19, 0x01, 0xb6, 0xbe, 0x71, 0x6d, 0x62, 0xa6, 0x6c, 0x1f, 0x8f, 0x4f, 0x20, 0xc4,
    0x96, 0xf3, 0x52, 0xee, 0xf5, 0x85, 0xaa, 0xb1, 0xb7, 0x1f, 0x08, 0x84,
];
const ERROR_RESPONSE: [u8; 28] = [
    0x85, 0x00, 0x19, 0x01, 0x88, 0x2a, 0x41, 0xc5, 0xa2, 0x7d, 0xe3, 0xfb, 0x89, 0xcf, 0xf8, 0x57,
    0xa4, 0x22, 0x31, 0xd7, 0xbf, 0x44, 0x93, 0x76, 0x11, 0xc5, 0x93, 0x02,
];
const BAD_PADDING_RESPONSE: [u8; 28] = [
    0x85, 0x00, 0x19, 0x01, 0x71, 0x28, 0x55, 0xb6, 0x51, 0xdc, 0x78, 0x56, 0x89, 0x3d, 0x29, 0x3b,
    0x65, 0x61, 0xbf, 0xda, 0xbe, 0x12, 0x55, 0x61, 0x85, 0x2a, 0x4c, 0x1d,
];
const GARBLED_RESPONSE: [u8; 28] = [
    0x85, 0x00, 0x19, 0x01, 0x54, 0x16, 0xe6, 0x67, 0x01, 0xcc, 0xc9, 0x50, 0x0f, 0x64, 0xc5, 0xdb,
    0x7d, 0x09, 0x8f, 0x96, 0x79, 0x61, 0xe4, 0x62, 0x14, 0xbc, 0x84, 0x89,
];

const EMPTY_DATA_RESPONSE: [u8; 12] =
    [0x85, 0x00, 0x09, 0x01, 0x33, 0xb4, 0x37, 0xf7, 0x72, 0x2c, 0xac, 0xbf];
const RAGGED_RESPONSE: [u8; 32] = [
    0x85, 0x00, 0x1d, 0x01, 0x00, 0x01, 0x02, 0x03, 0x04, 0x05, 0x06, 0x07, 0x08, 0x09, 0x0a, 0x0b,
    0x0c, 0x0d, 0x0e, 0x0f, 0x10, 0x11, 0x12, 0x13, 0x4a, 0xc9, 0x34, 0x6d, 0xe9, 0x2a, 0xd2, 0xb2,
];

fn created() -> SecureChannel {
    SecureChannel::new(
        SessionId(1),
        &AuthKey(AUTH_KEY),
        Challenge(HOST_CHALLENGE),
        Challenge(CARD_CHALLENGE),
    )
}

fn confirmation() -> ResponseMessage {
    ResponseMessage::parse(vec![0x84, 0x00, 0x00]).unwrap()
}

fn active() -> SecureChannel {
    let mut channel = created();
    channel.authenticate_session().unwrap();
    channel.finish_authenticate_session(&confirmation()).unwrap();
    channel
}

fn echo(message: &[u8]) -> CommandMessage {
    CommandMessage::new(CommandType(ECHO), message.to_vec())
}

/// An active channel that has sent the first echo command.
fn awaiting_echo() -> SecureChannel {
    let mut channel = active();
    channel.encrypt_command(echo(b"Hello, world!")).unwrap();
    channel
}

#[test]
fn new_channel_is_created_and_has_counted_nothing() {
    let channel = created();
    assert_eq!(channel.state(), ChannelState::Created);
    assert_eq!(channel.counter(), 0);
    assert_eq!(channel.id(), SessionId(1));
}

#[test]
fn cryptograms_follow_from_key_and_challenges() {
    let channel = created();
    assert_eq!(channel.card_cryptogram().0, CARD_CRYPTOGRAM);
    assert_eq!(channel.host_cryptogram().0, HOST_CRYPTOGRAM);
    assert_ne!(channel.card_cryptogram().0, channel.host_cryptogram().0);
}

#[test]
fn same_inputs_give_the_same_cryptogram() {
    assert_eq!(created().card_cryptogram().0, created().card_cryptogram().0);
}

#[test]
fn another_key_gives_another_card_cryptogram() {
    let other = SecureChannel::new(
        SessionId(1),
        &AuthKey([0; 32]),
        Challenge(HOST_CHALLENGE),
        Challenge(CARD_CHALLENGE),
    );
    assert_eq!(other.card_cryptogram().0, CARD_CRYPTOGRAM_OF_ZERO_KEY);
    assert_ne!(other.card_cryptogram().0, created().card_cryptogram().0);
    assert!(!other.card_cryptogram().ct_eq(&created().card_cryptogram()));
}

#[test]
fn other_challenges_give_another_card_cryptogram() {
    let other = SecureChannel::new(
        SessionId(1),
        &AuthKey(AUTH_KEY),
        Challenge(CARD_CHALLENGE),
        Challenge(HOST_CHALLENGE),
    );
    assert_ne!(other.card_cryptogram().0, created().card_cryptogram().0);
}

#[test]
fn session_keys_follow_from_key_and_challenges() {
    let keys =
        derive_session_keys(&AuthKey(AUTH_KEY), Challenge(HOST_CHALLENGE), Challenge(CARD_CHALLENGE));
    assert_eq!(keys.enc_key, ENC_KEY);
    assert_eq!(keys.mac_key, MAC_KEY);
    assert_eq!(keys.rmac_key, RMAC_KEY);
    let again =
        derive_session_keys(&AuthKey(AUTH_KEY), Challenge(HOST_CHALLENGE), Challenge(CARD_CHALLENGE));
    assert_eq!(again.enc_key, keys.enc_key);
    assert_eq!(again.mac_key, keys.mac_key);
    assert_eq!(again.rmac_key, keys.rmac_key);
}

#[test]
fn cryptograms_follow_from_the_session_keys() {
    let host = Challenge(HOST_CHALLENGE);
    let card = Challenge(CARD_CHALLENGE);
    let keys = derive_session_keys(&AuthKey(AUTH_KEY), host, card);
    assert_eq!(compute_card_cryptogram(&keys, host, card).0, CARD_CRYPTOGRAM);
    assert_eq!(compute_host_cryptogram(&keys, host, card).0, HOST_CRYPTOGRAM);
}

#[test]
fn derivations_differ_by_constant_and_length() {
    let context = context_of(Challenge(HOST_CHALLENGE), Challenge(CARD_CHALLENGE));
    let mut expected = HOST_CHALLENGE.to_vec();
    expected.extend_from_slice(&CARD_CHALLENGE);
    assert_eq!(context.to_vec(), expected);
    let mut half = [0u8; 16];
    half.copy_from_slice(&AUTH_KEY[16..]);
    assert_eq!(derive_key(&half, 0x06, &context), MAC_KEY);
    assert_eq!(derive_key(&half, 0x07, &context), RMAC_KEY);
    assert_eq!(derive_cryptogram(&MAC_KEY, 0x00, &context), CARD_CRYPTOGRAM);
    assert_eq!(derive_cryptogram(&MAC_KEY, 0x01, &context), HOST_CRYPTOGRAM);
    // A cryptogram is no beginning of a key: the length is part of the input.
    assert_ne!(derive_key(&MAC_KEY, 0x00, &context)[..8], CARD_CRYPTOGRAM[..]);
}

#[test]
fn cryptograms_compare_by_value() {
    assert!(Cryptogram(CARD_CRYPTOGRAM).ct_eq(&Cryptogram(CARD_CRYPTOGRAM)));
    assert!(!Cryptogram(CARD_CRYPTOGRAM).ct_eq(&Cryptogram(HOST_CRYPTOGRAM)));
    for bit in 0..64 {
        let mut other = CARD_CRYPTOGRAM;
        other[bit / 8] ^= 1 << (bit % 8);
        assert!(!Cryptogram(CARD_CRYPTOGRAM).ct_eq(&Cryptogram(other)));
    }
}

#[test]
fn authenticate_session_sends_the_host_cryptogram_under_a_mac() {
    let mut channel = created();
    let command = channel.authenticate_session().unwrap();
    assert_eq!(command.command_type, CommandType(AUTH_SESSION));
    assert_eq!(command.session_id, Some(SessionId(1)));
    assert_eq!(command.data, HOST_CRYPTOGRAM.to_vec());
    assert_eq!(command.serialize(), Ok(AUTH_COMMAND.to_vec()));
    assert_eq!(channel.state(), ChannelState::Authenticating);
    assert_eq!(channel.counter(), 0);
}

#[test]
fn handshake_makes_a_created_channel_active() {
    let mut channel = created();
    channel.authenticate_session().unwrap();
    assert_eq!(channel.finish_authenticate_session(&confirmation()), Ok(()));
    assert_eq!(channel.state(), ChannelState::Active);
    assert_eq!(channel.counter(), 0);
}

#[test]
fn authentication_cannot_be_started_twice() {
    let mut channel = created();
    channel.authenticate_session().unwrap();
    assert_eq!(channel.authenticate_session().err(), Some(SessionError::ChannelUnusable));
    assert_eq!(channel.state(), ChannelState::Authenticating);
    let mut channel = active();
    assert_eq!(channel.authenticate_session().err(), Some(SessionError::ChannelUnusable));
    assert_eq!(channel.state(), ChannelState::Active);
}

#[test]
fn confirmation_is_refused_before_authentication_started() {
    let mut channel = created();
    assert_eq!(
        channel.finish_authenticate_session(&confirmation()),
        Err(SessionError::ChannelUnusable)
    );
    assert_eq!(channel.state(), ChannelState::Created);
}

#[test]
fn rejection_by_the_device_is_an_authentication_failure() {
    let mut channel = created();
    channel.authenticate_session().unwrap();
    let rejection = ResponseMessage::parse(vec![0x7f, 0x00, 0x01, 0x04]).unwrap();
    assert_eq!(channel.finish_authenticate_session(&rejection), Err(SessionError::AuthFailed));
    assert_eq!(channel.state(), ChannelState::Terminated);
}

#[test]
fn confirmation_of_another_command_is_a_protocol_error() {
    let mut channel = created();
    channel.authenticate_session().unwrap();
    let other = ResponseMessage::parse(vec![0x81, 0x00, 0x00]).unwrap();
    assert_eq!(channel.finish_authenticate_session(&other), Err(SessionError::ProtocolError));
    assert_eq!(channel.state(), ChannelState::Terminated);
}

#[test]
fn confirmation_is_told_by_status_and_command_only() {
    let mut channel = created();
    channel.authenticate_session().unwrap();
    let with_data = ResponseMessage::parse(vec![0x84, 0x00, 0x01, 0x00]).unwrap();
    assert_eq!(channel.finish_authenticate_session(&with_data), Ok(()));
    assert_eq!(channel.state(), ChannelState::Active);
    assert_eq!(channel.id(), SessionId(1));
}

#[test]
fn commands_are_not_encrypted_before_authentication() {
    let mut channel = created();
    assert_eq!(channel.encrypt_command(echo(b"x")).err(), Some(SessionError::ChannelUnusable));
    assert_eq!(channel.state(), ChannelState::Created);
    channel.authenticate_session().unwrap();
    assert_eq!(channel.encrypt_command(echo(b"x")).err(), Some(SessionError::ChannelUnusable));
    assert_eq!(channel.state(), ChannelState::Authenticating);
}

#[test]
fn responses_are_not_decrypted_before_authentication() {
    let mut channel = created();
    let response = ResponseMessage::parse(ECHO_RESPONSE.to_vec()).unwrap();
    assert_eq!(channel.decrypt_response(response).err(), Some(SessionError::ChannelUnusable));
    assert_eq!(channel.state(), ChannelState::Created);
}

#[test]
fn encrypt_command_wraps_the_encrypted_command_in_a_session_message() {
    let mut channel = active();
    let sealed = channel.encrypt_command(echo(b"Hello, world!")).unwrap();
    assert_eq!(sealed.command_type, CommandType(SESSION_MESSAGE));
    assert_eq!(sealed.session_id, Some(SessionId(1)));
    assert_eq!(sealed.data.len(), 32);
    assert_eq!(sealed.serialize(), Ok(ECHO_SEALED.to_vec()));
    assert_eq!(channel.state(), ChannelState::Active);
    assert_eq!(channel.counter(), 1);
}

#[test]
fn macs_are_chained_from_command_to_command() {
    let mut channel = awaiting_echo();
    let second = channel.encrypt_command(echo(b"")).unwrap();
    assert_eq!(second.serialize(), Ok(SECOND_ECHO_SEALED.to_vec()));
    assert_eq!(channel.counter(), 2);
    // The same command as the first of a session gets another MAC.
    let mut fresh = active();
    let first = fresh.encrypt_command(echo(b"")).unwrap();
    assert_ne!(first.mac, second.mac);
}

#[test]
fn counter_rises_by_one_with_each_command() {
    let mut channel = active();
    let mut seen = Vec::new();
    for n in 1..=50u32 {
        let before = channel.counter();
        channel.encrypt_command(echo(&[n as u8])).unwrap();
        assert_eq!(channel.counter(), before + 1);
        assert_eq!(channel.counter(), n);
        assert!(!seen.contains(&channel.counter()));
        seen.push(channel.counter());
    }
}

#[test]
fn decrypt_response_hands_out_the_inner_response() {
    let mut channel = awaiting_echo();
    let response = ResponseMessage::parse(ECHO_RESPONSE.to_vec()).unwrap();
    let inner = channel.decrypt_response(response).unwrap();
    assert_eq!(inner.command(), Some(CommandType(ECHO)));
    assert_eq!(inner.session_id, Some(SessionId(1)));
    assert_eq!(inner.data, b"Hello, world!".to_vec());
    assert_eq!(inner.mac, None);
    assert_eq!(channel.state(), ChannelState::Active);
    assert_eq!(channel.counter(), 1);
}

#[test]
fn decrypt_response_hands_out_an_error_status_of_the_device() {
    let mut channel = awaiting_echo();
    let response = ResponseMessage::parse(ERROR_RESPONSE.to_vec()).unwrap();
    let inner = channel.decrypt_response(response).unwrap();
    assert!(inner.is_err());
    assert_eq!(inner.code.to_u8(), 0x7f);
    assert_eq!(inner.data, vec![0x0b]);
    assert_eq!(channel.state(), ChannelState::Active);
}

#[test]
fn flipping_any_bit_of_body_or_mac_fails_verification() {
    for byte in 4..ECHO_RESPONSE.len() {
        for bit in 0..8 {
            let mut tampered = ECHO_RESPONSE.to_vec();
            tampered[byte] ^= 1 << bit;
            let mut channel = awaiting_echo();
            let response = ResponseMessage::parse(tampered).unwrap();
            assert_eq!(
                channel.decrypt_response(response).err(),
                Some(SessionError::VerifyFailed)
            );
            assert_eq!(channel.state(), ChannelState::Terminated);
        }
    }
}

#[test]
fn response_to_another_command_of_the_chain_fails_verification() {
    // The response belongs after the first command, not after the second.
    let mut channel = awaiting_echo();
    channel.encrypt_command(echo(b"")).unwrap();
    let response = ResponseMessage::parse(ECHO_RESPONSE.to_vec()).unwrap();
    assert_eq!(channel.decrypt_response(response).err(), Some(SessionError::VerifyFailed));
    assert_eq!(channel.state(), ChannelState::Terminated);
}

#[test]
fn response_of_another_session_is_a_protocol_error() {
    let mut channel = awaiting_echo();
    let mut response = ResponseMessage::parse(ECHO_RESPONSE.to_vec()).unwrap();
    response.session_id = Some(SessionId(2));
    assert_eq!(channel.decrypt_response(response).err(), Some(SessionError::ProtocolError));
    assert_eq!(channel.state(), ChannelState::Terminated);
}

#[test]
fn response_without_session_or_mac_is_a_protocol_error() {
    let mut channel = awaiting_echo();
    let mut response = ResponseMessage::parse(ECHO_RESPONSE.to_vec()).unwrap();
    response.mac = None;
    assert_eq!(channel.decrypt_response(response).err(), Some(SessionError::ProtocolError));
    assert_eq!(channel.state(), ChannelState::Terminated);
    let mut channel = awaiting_echo();
    let plain = ResponseMessage::parse(vec![0x81, 0x00, 0x00]).unwrap();
    assert_eq!(channel.decrypt_response(plain).err(), Some(SessionError::ProtocolError));
    assert_eq!(channel.state(), ChannelState::Terminated);
}

#[test]
fn authentic_response_with_malformed_padding_is_a_protocol_error() {
    let mut channel = awaiting_echo();
    let response = ResponseMessage::parse(BAD_PADDING_RESPONSE.to_vec()).unwrap();
    assert_eq!(channel.decrypt_response(response).err(), Some(SessionError::ProtocolError));
    assert_eq!(channel.state(), ChannelState::Terminated);
}

#[test]
fn authentic_response_without_data_is_a_protocol_error() {
    let mut channel = awaiting_echo();
    let response = ResponseMessage::parse(EMPTY_DATA_RESPONSE.to_vec()).unwrap();
    assert!(response.data.is_empty());
    assert_eq!(channel.decrypt_response(response).err(), Some(SessionError::ProtocolError));
    assert_eq!(channel.state(), ChannelState::Terminated);
}

#[test]
fn authentic_response_of_no_whole_blocks_is_a_protocol_error() {
    let mut channel = awaiting_echo();
    let response = ResponseMessage::parse(RAGGED_RESPONSE.to_vec()).unwrap();
    assert_eq!(response.data.len(), 20);
    assert_eq!(channel.decrypt_response(response).err(), Some(SessionError::ProtocolError));
    assert_eq!(channel.state(), ChannelState::Terminated);
}

#[test]
fn authentic_response_that_holds_no_envelope_is_a_protocol_error() {
    let mut channel = awaiting_echo();
    let response = ResponseMessage::parse(GARBLED_RESPONSE.to_vec()).unwrap();
    assert_eq!(channel.decrypt_response(response).err(), Some(SessionError::ProtocolError));
    assert_eq!(channel.state(), ChannelState::Terminated);
}

#[test]
fn command_too_long_is_refused_and_changes_nothing() {
    let mut channel = active();
    assert_eq!(
        channel.encrypt_command(echo(&vec![0; 0x1_0000])).err(),
        Some(SessionError::MessageTooLong)
    );
    assert_eq!(
        channel.encrypt_command(echo(&vec![0; 65517])).err(),
        Some(SessionError::MessageTooLong)
    );
    assert_eq!(channel.state(), ChannelState::Active);
    assert_eq!(channel.counter(), 0);
    // The chain is untouched: the next command is the first of the session.
    let sealed = channel.encrypt_command(echo(b"Hello, world!")).unwrap();
    assert_eq!(sealed.serialize(), Ok(ECHO_SEALED.to_vec()));
}

#[test]
fn longest_command_still_fits() {
    let mut channel = active();
    let sealed = channel.encrypt_command(echo(&vec![0; 65516])).unwrap();
    assert_eq!(sealed.data.len(), 65520);
    assert_eq!(sealed.serialize().unwrap().len(), 3 + 1 + 65520 + 8);
    assert_eq!(channel.counter(), 1);
}

#[test]
fn terminate_discards_keys_and_counter() {
    let mut channel = awaiting_echo();
    channel.terminate();
    assert_eq!(channel.state(), ChannelState::Terminated);
    assert_eq!(channel.counter(), 0);
    assert_eq!(channel.id(), SessionId(1));
    // What is derived now is derived from zeroed key and context.
    assert_eq!(channel.card_cryptogram().0, CARD_CRYPTOGRAM_AFTER_TERMINATION);
}

#[test]
fn terminate_is_idempotent() {
    let mut channel = active();
    channel.terminate();
    let once = (channel.state(), channel.counter(), channel.card_cryptogram().0);
    channel.terminate();
    assert_eq!((channel.state(), channel.counter(), channel.card_cryptogram().0), once);
}

#[test]
fn terminated_channel_refuses_every_operation() {
    let mut channel = active();
    channel.terminate();
    assert_eq!(channel.authenticate_session().err(), Some(SessionError::ChannelUnusable));
    assert_eq!(
        channel.finish_authenticate_session(&confirmation()),
        Err(SessionError::ChannelUnusable)
    );
    assert_eq!(channel.encrypt_command(echo(b"x")).err(), Some(SessionError::ChannelUnusable));
    let response = ResponseMessage::parse(ECHO_RESPONSE.to_vec()).unwrap();
    assert_eq!(channel.decrypt_response(response).err(), Some(SessionError::ChannelUnusable));
    assert_eq!(channel.state(), ChannelState::Terminated);
}

#[test]
fn random_challenges_differ() {
    let first = Challenge::random().unwrap();
    let second = Challenge::random().unwrap();
    assert_ne!(first, second);
}

#[test]
fn challenge_from_random_bytes_or_failure() {
    assert_eq!(Challenge::from_random(Some([7; 8])), Ok(Challenge([7; 8])));
    assert_eq!(Challenge::from_random(None), Err(SessionError::CreateFailed));
}

#[test]
fn challenge_and_cryptogram_are_eight_bytes() {
    assert_eq!(Challenge::from_slice(&[1, 2, 3, 4, 5, 6, 7, 8]), Some(Challenge([1, 2, 3, 4, 5, 6, 7, 8])));
    assert_eq!(Challenge::from_slice(&[1, 2, 3, 4, 5, 6, 7]), None);
    assert_eq!(Challenge::from_slice(&[1, 2, 3, 4, 5, 6, 7, 8, 9]), None);
    assert_eq!(Cryptogram::from_slice(&[8; 8]).map(|cryptogram| cryptogram.0), Some([8; 8]));
    assert!(Cryptogram::from_slice(&[]).is_none());
    assert!(Cryptogram::from_slice(&[8; 9]).is_none());
    assert_eq!(Challenge(HOST_CHALLENGE).as_slice(), &HOST_CHALLENGE[..]);
    assert_eq!(Cryptogram(CARD_CRYPTOGRAM).as_slice(), &CARD_CRYPTOGRAM[..]);
}

#[test]
fn auth_key_halves() {
    let key = AuthKey(AUTH_KEY);
    assert_eq!(key.enc_key()[..], AUTH_KEY[..16]);
    assert_eq!(key.mac_key()[..], AUTH_KEY[16..]);
}
