//! Commands as they travel to the device.

use uuid::Uuid;
use vstd::prelude::*;

use crate::crypto::{random_bytes, random_uuid, uuid_from_random_bytes};
use crate::error::SessionError;
use crate::securechannel::SessionId;
use crate::wire::{append, be16, push_be16, zeros};

verus! {

/// Largest value of the envelope's length field.
pub const MAX_WIRE_LENGTH: usize = 0xffff;

/// Tag of the command that echoes a message back.
pub const ECHO: u8 = 0x01;

/// Tag of the command that creates a session.
pub const CREATE_SESSION: u8 = 0x03;

/// Tag of the command that authenticates a session.
pub const AUTH_SESSION: u8 = 0x04;

/// Tag of the command that carries an encrypted command within a session.
pub const SESSION_MESSAGE: u8 = 0x05;

/// Tag of the command that generates an asymmetric key.
pub const GEN_ASYMMETRIC_KEY: u8 = 0x46;

/// Tag of the command that lists the objects on the device.
pub const LIST_OBJECTS: u8 = 0x48;

/// Tag of the command that gets information about an object.
pub const GET_OBJECT_INFO: u8 = 0x4e;

/// Tag of the command that deletes an object.
pub const DELETE_OBJECT: u8 = 0x58;

/// Tag that tells the device which operation a command asks for. The set
/// of tags is open: the channel only compares them.
#[derive(Clone, Copy, Debug, PartialEq, Eq, Structural)]
pub struct CommandType(pub u8);

impl CommandType {
    /// The command type with the given tag.
    pub fn from_u8(tag: u8) -> (command_type: CommandType)
        ensures
            command_type == CommandType(tag),
    {
        CommandType(tag)
    }

    /// The tag of this command type.
    pub fn to_u8(&self) -> (tag: u8)
        ensures
            tag == self.0,
    {
        self.0
    }
}

/// What a command holds, apart from its correlation identifier.
pub struct CommandModel {
    pub command_type: CommandType,
    pub session_id: Option<SessionId>,
    pub data: Seq<u8>,
    pub mac: Option<Seq<u8>>,
}

impl CommandModel {
    /// The value of the envelope's length field: everything after it.
    pub open spec fn body_len(self) -> int {
        (if self.session_id is Some { 1int } else { 0int }) + self.data.len() + (if self.mac is Some {
            8int
        } else {
            0int
        })
    }

    /// The envelope: type tag, length, then session id, data and
    /// authentication code as far as they are present.
    pub open spec fn wire(self) -> Seq<u8> {
        seq![self.command_type.0] + be16(self.body_len() as u16) + (match self.session_id {
            Some(id) => seq![id.0],
            None => Seq::empty(),
        }) + self.data + (match self.mac {
            Some(mac) => mac,
            None => Seq::empty(),
        })
    }
}

/// A command sent to the device.
#[derive(Debug)]
pub struct CommandMessage {
    /// Identifier that correlates the command with its transport request.
    pub uuid: Uuid,
    /// Type of the command.
    pub command_type: CommandType,
    /// Session the command belongs to, once a channel exists.
    pub session_id: Option<SessionId>,
    /// Payload of the command.
    pub data: Vec<u8>,
    /// Authentication code over the command, within a session.
    pub mac: Option<[u8; 8]>,
}

impl View for CommandMessage {
    type V = CommandModel;

    open spec fn view(&self) -> CommandModel {
        CommandModel {
            command_type: self.command_type,
            session_id: self.session_id,
            data: self.data@,
            mac: match self.mac {
                Some(mac) => Some(mac@),
                None => None,
            },
        }
    }
}

/// A fresh correlation identifier: made of sixteen bytes, which are those
/// that the random source gives, or zeros where that source fails.
fn fresh_uuid() -> (uuid: Uuid)
    ensures
        exists|bytes: Seq<u8>| bytes.len() == 16 && uuid == random_uuid(bytes),
{
    let drawn = random_bytes::<16>();
    let uuid = correlation_id(drawn);
    assert(correlation_seed(drawn).len() == 16);
    uuid
}

/// The bytes of which a correlation identifier is made: those that the
/// random source gave, or sixteen zeros where it gave none.
pub open spec fn correlation_seed(drawn: Option<[u8; 16]>) -> Seq<u8> {
    match drawn {
        Some(bytes) => bytes@,
        None => zeros(16),
    }
}

/// Makes the correlation identifier of what the random source gave.
pub fn correlation_id(drawn: Option<[u8; 16]>) -> (uuid: Uuid)
    ensures
        uuid == random_uuid(correlation_seed(drawn)),
{
    match drawn {
        Some(bytes) => uuid_from_random_bytes(bytes),
        None => {
            let blank = [0u8; 16];
            assert(blank@ =~= zeros(16));
            uuid_from_random_bytes(blank)
        },
    }
}

impl CommandMessage {
    /// A command outside any session, with a fresh correlation identifier.
    pub fn new(command_type: CommandType, data: Vec<u8>) -> (command: CommandMessage)
        ensures
            command@ == (CommandModel { command_type, session_id: None, data: data@, mac: None }),
    {
        CommandMessage { uuid: fresh_uuid(), command_type, session_id: None, data, mac: None }
    }

    /// A command within a session, carrying its authentication code, with
    /// a fresh correlation identifier.
    pub fn new_with_mac(
        command_type: CommandType,
        session_id: SessionId,
        data: Vec<u8>,
        mac: [u8; 8],
    ) -> (command: CommandMessage)
        ensures
            command@ == (CommandModel {
                command_type,
                session_id: Some(session_id),
                data: data@,
                mac: Some(mac@),
            }),
    {
        CommandMessage {
            uuid: fresh_uuid(),
            command_type,
            session_id: Some(session_id),
            data,
            mac: Some(mac),
        }
    }

    /// Encodes the command as its wire envelope. Fails where the body is
    /// longer than the length field can say.
    pub fn serialize(&self) -> (r: Result<Vec<u8>, SessionError>)
        ensures
            self@.body_len() <= MAX_WIRE_LENGTH ==> r is Ok && r->Ok_0@ == self@.wire(),
            self@.body_len() > MAX_WIRE_LENGTH ==> r == Err::<Vec<u8>, SessionError>(
                SessionError::MessageTooLong,
            ),
    {
        if self.data.len() > MAX_WIRE_LENGTH {
            return Err(SessionError::MessageTooLong);
        }
        let mut length: usize = self.data.len();
        if self.session_id.is_some() {
            length = length + 1;
        }
        if self.mac.is_some() {
            length = length + 8;
        }
        if length > MAX_WIRE_LENGTH {
            return Err(SessionError::MessageTooLong);
        }
        let mut out: Vec<u8> = Vec::new();
        out.push(self.command_type.0);
        push_be16(&mut out, length as u16);
        if let Some(id) = self.session_id {
            out.push(id.0);
        }
        append(&mut out, self.data.as_slice());
        if let Some(mac) = &self.mac {
            append(&mut out, mac.as_slice());
        }
        proof {
            assert(out@ =~= self@.wire());
        }
        Ok(out)
    }
}

} // verus!
