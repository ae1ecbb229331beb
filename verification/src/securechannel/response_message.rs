//! Responses as they come back from the device.

use vstd::prelude::*;

use crate::error::SessionError;
use crate::securechannel::command_message::{
    CommandType, CREATE_SESSION, MAX_WIRE_LENGTH, SESSION_MESSAGE,
};
use crate::securechannel::SessionId;
use crate::wire::{be16, copy_range, first_eight, from_be16, read_be16};

verus! {

/// Smallest envelope: the status byte and the length field.
pub const HEADER_SIZE: usize = 3;

/// Bit that marks a status byte as a success.
pub const SUCCESS_BIT: u8 = 0x80;

/// Status byte of a response. Values from 0x80 up report success and
/// echo the command's type in the low seven bits; lower values are errors
/// reported by the device.
#[derive(Clone, Copy, Debug, PartialEq, Eq, Structural)]
pub struct ResponseCode(pub u8);

impl ResponseCode {
    /// Whether the code reports success.
    pub open spec fn spec_is_success(&self) -> bool {
        self.0 >= SUCCESS_BIT
    }

    /// The command type that a success code echoes.
    pub open spec fn spec_command(&self) -> Option<CommandType> {
        if self.0 >= SUCCESS_BIT {
            Some(CommandType((self.0 - SUCCESS_BIT) as u8))
        } else {
            None
        }
    }

    /// Whether a response with this code names its session: the answers
    /// to session creation and to messages within a session do.
    pub open spec fn has_session_id(self) -> bool {
        self.spec_command() == Some(CommandType(CREATE_SESSION)) || self.spec_command() == Some(
            CommandType(SESSION_MESSAGE),
        )
    }

    /// Whether a response with this code ends in an authentication code:
    /// the answers to messages within a session do.
    pub open spec fn has_mac(self) -> bool {
        self.spec_command() == Some(CommandType(SESSION_MESSAGE))
    }

    /// The code with the given byte.
    pub fn from_u8(byte: u8) -> (code: ResponseCode)
        ensures
            code == ResponseCode(byte),
    {
        ResponseCode(byte)
    }

    /// The byte of this code.
    pub fn to_u8(&self) -> (byte: u8)
        ensures
            byte == self.0,
    {
        self.0
    }

    /// Tells whether the code reports success.
    #[verifier::when_used_as_spec(spec_is_success)]
    pub fn is_success(&self) -> (success: bool)
        ensures
            success == self.spec_is_success(),
    {
        self.0 >= SUCCESS_BIT
    }

    /// The command type that the code echoes, if it reports success.
    #[verifier::when_used_as_spec(spec_command)]
    pub fn command(&self) -> (command: Option<CommandType>)
        ensures
            command == self.spec_command(),
    {
        if self.0 >= SUCCESS_BIT {
            Some(CommandType(self.0 - SUCCESS_BIT))
        } else {
            None
        }
    }
}

/// What a response holds.
pub struct ResponseModel {
    pub code: ResponseCode,
    pub session_id: Option<SessionId>,
    pub data: Seq<u8>,
    pub mac: Option<Seq<u8>>,
}

impl ResponseModel {
    /// The value of the envelope's length field: everything after it.
    pub open spec fn body_len(self) -> int {
        (if self.session_id is Some { 1int } else { 0int }) + self.data.len() + (if self.mac is Some {
            8int
        } else {
            0int
        })
    }

    /// Whether the response can travel: it names a session and carries an
    /// authentication code of eight bytes exactly where its status calls
    /// for them, and its length fits the length field.
    pub open spec fn well_formed(self) -> bool {
        &&& self.session_id is Some <==> self.code.has_session_id()
        &&& self.mac is Some <==> self.code.has_mac()
        &&& self.mac is Some ==> self.mac->Some_0.len() == 8
        &&& self.body_len() <= MAX_WIRE_LENGTH
    }

    /// The envelope: status byte, length, then session id, data and
    /// authentication code as far as they are present.
    pub open spec fn wire(self) -> Seq<u8> {
        seq![self.code.0] + be16(self.body_len() as u16) + (match self.session_id {
            Some(id) => seq![id.0],
            None => Seq::empty(),
        }) + self.data + (match self.mac {
            Some(mac) => mac,
            None => Seq::empty(),
        })
    }
}

/// What `bytes` decode to as a response envelope, if they are one: a
/// status byte, a length field that counts exactly the bytes after it,
/// then the session id and, at the very end, the authentication code
/// where the status calls for them, with the data in between.
pub open spec fn parse_response(bytes: Seq<u8>) -> Option<ResponseModel> {
    if bytes.len() < HEADER_SIZE || from_be16(bytes[1], bytes[2]) + HEADER_SIZE != bytes.len() {
        None
    } else {
        let code = ResponseCode(bytes[0]);
        let id_len: int = if code.has_session_id() { 1 } else { 0 };
        let mac_len: int = if code.has_mac() { 8 } else { 0 };
        let end = bytes.len() as int;
        if end - HEADER_SIZE < id_len + mac_len {
            None
        } else {
            Some(
                ResponseModel {
                    code,
                    session_id: if code.has_session_id() {
                        Some(SessionId(bytes[3]))
                    } else {
                        None
                    },
                    data: bytes.subrange(HEADER_SIZE + id_len, end - mac_len),
                    mac: if code.has_mac() {
                        Some(bytes.subrange(end - 8, end))
                    } else {
                        None
                    },
                },
            )
        }
    }
}

/// A response received from the device.
#[derive(Debug)]
pub struct ResponseMessage {
    /// Status of the response.
    pub code: ResponseCode,
    /// Session the response belongs to, where it names one.
    pub session_id: Option<SessionId>,
    /// Payload of the response.
    pub data: Vec<u8>,
    /// Authentication code over the response, within a session.
    pub mac: Option<[u8; 8]>,
}

impl View for ResponseMessage {
    type V = ResponseModel;

    open spec fn view(&self) -> ResponseModel {
        ResponseModel {
            code: self.code,
            session_id: self.session_id,
            data: self.data@,
            mac: match self.mac {
                Some(mac) => Some(mac@),
                None => None,
            },
        }
    }
}

impl ResponseMessage {
    /// Decodes a response envelope. Fails with a protocol error where the
    /// bytes are none.
    pub fn parse(bytes: Vec<u8>) -> (r: Result<ResponseMessage, SessionError>)
        ensures
            match parse_response(bytes@) {
                Some(model) => r is Ok && r->Ok_0@ == model,
                None => r == Err::<ResponseMessage, SessionError>(SessionError::ProtocolError),
            },
    {
        let end = bytes.len();
        if end < HEADER_SIZE {
            return Err(SessionError::ProtocolError);
        }
        let length = read_be16(bytes[1], bytes[2]) as usize;
        if end - HEADER_SIZE != length {
            return Err(SessionError::ProtocolError);
        }
        let code = ResponseCode(bytes[0]);
        let with_id = code.0 == SUCCESS_BIT + CREATE_SESSION || code.0 == SUCCESS_BIT
            + SESSION_MESSAGE;
        let with_mac = code.0 == SUCCESS_BIT + SESSION_MESSAGE;
        let id_len: usize = if with_id { 1 } else { 0 };
        let mac_len: usize = if with_mac { 8 } else { 0 };
        if length < id_len + mac_len {
            return Err(SessionError::ProtocolError);
        }
        let session_id = if with_id { Some(SessionId(bytes[3])) } else { None };
        let data = copy_range(bytes.as_slice(), HEADER_SIZE + id_len, end - mac_len);
        let mac = if with_mac {
            let tail = copy_range(bytes.as_slice(), end - 8, end);
            Some(first_eight(tail.as_slice()))
        } else {
            None
        };
        let response = ResponseMessage { code, session_id, data, mac };
        proof {
            if with_mac {
                assert(response.mac->Some_0@ =~= bytes@.subrange(end - 8, end as int));
            }
        }
        Ok(response)
    }

    /// Tells whether the device reported an error.
    pub fn is_err(&self) -> (err: bool)
        ensures
            err == !self.code.spec_is_success(),
    {
        !self.code.is_success()
    }

    /// The command type that the response echoes, if it reports success.
    pub fn command(&self) -> (command: Option<CommandType>)
        ensures
            command == self.code.spec_command(),
    {
        self.code.command()
    }

}

/// Decoding undoes encoding: the envelope of a response that is well
/// formed decodes to that response.
pub proof fn parse_inverts_wire(response: ResponseModel)
    requires
        response.well_formed(),
    ensures
        parse_response(response.wire()) == Some(response),
{
    let bytes = response.wire();
    let parsed = parse_response(bytes)->Some_0;
    assert(bytes[0] == response.code.0);
    assert(bytes[1] == be16(response.body_len() as u16)[0]);
    assert(bytes[2] == be16(response.body_len() as u16)[1]);
    assert(bytes.len() == HEADER_SIZE + response.body_len());
    assert(parsed.data =~= response.data);
    if response.mac is Some {
        assert(parsed.mac->Some_0 =~= response.mac->Some_0);
    }
    if response.session_id is Some {
        assert(bytes[3] == response.session_id->Some_0.0);
    }
}

/// Encoding undoes decoding: whatever decodes is the envelope of the
/// response that it decodes to, and that response is well formed. So no
/// two envelopes decode to the same response.
pub proof fn wire_inverts_parse(bytes: Seq<u8>)
    requires
        parse_response(bytes) is Some,
    ensures
        parse_response(bytes)->Some_0.well_formed(),
        parse_response(bytes)->Some_0.wire() == bytes,
{
    let response = parse_response(bytes)->Some_0;
    assert(response.body_len() == bytes.len() - HEADER_SIZE);
    assert(response.wire() =~= bytes);
}

} // verus!
