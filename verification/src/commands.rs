//! Request parameters of the commands, and their encoding as command
//! messages.

use vstd::prelude::*;

use crate::domain::{encode_domains, Domains};
use crate::object::{Algorithm, Capabilities, ObjectId, ObjectLabel, ObjectType};
use crate::securechannel::command_message::{
    CommandMessage, CommandModel, CommandType, DELETE_OBJECT, ECHO, GEN_ASYMMETRIC_KEY,
    GET_OBJECT_INFO, LIST_OBJECTS,
};
use crate::wire::{append, be16, be64, push_be16, push_be64};

verus! {

/// Parameters of a request, which know the type of their command and how
/// they travel: fields in their order, integers big-endian, byte strings
/// as they are.
pub trait Command: Sized {
    /// The type of the command.
    spec fn spec_command_type() -> CommandType;

    /// The payload of the command.
    spec fn spec_payload(&self) -> Seq<u8>;

    /// Tells the type of the command.
    fn command_type() -> (command_type: CommandType)
        ensures
            command_type == Self::spec_command_type(),
    ;

    /// Encodes the parameters as the payload of the command.
    fn payload(&self) -> (bytes: Vec<u8>)
        ensures
            bytes@ == self.spec_payload(),
    ;
}

/// The message of a command, not yet within a session.
pub fn command_message<C: Command>(command: &C) -> (message: CommandMessage)
    ensures
        message@ == (CommandModel {
            command_type: C::spec_command_type(),
            session_id: None,
            data: command.spec_payload(),
            mac: None,
        }),
{
    CommandMessage::new(C::command_type(), command.payload())
}

/// Request parameters for deleting an object.
#[derive(Debug)]
pub struct DeleteObjectCommand {
    /// Object ID to delete
    pub object_id: ObjectId,
    /// Type of object to delete
    pub object_type: ObjectType,
}

impl Command for DeleteObjectCommand {
    open spec fn spec_command_type() -> CommandType {
        CommandType(DELETE_OBJECT)
    }

    open spec fn spec_payload(&self) -> Seq<u8> {
        be16(self.object_id) + seq![self.object_type.0]
    }

    fn command_type() -> (command_type: CommandType) {
        CommandType(DELETE_OBJECT)
    }

    fn payload(&self) -> (bytes: Vec<u8>) {
        let mut bytes: Vec<u8> = Vec::new();
        push_be16(&mut bytes, self.object_id);
        bytes.push(self.object_type.0);
        assert(bytes@ =~= self.spec_payload());
        bytes
    }
}

/// Request parameters for echoing a message.
#[derive(Debug)]
pub struct EchoCommand {
    /// Message to echo
    pub message: Vec<u8>,
}

impl Command for EchoCommand {
    open spec fn spec_command_type() -> CommandType {
        CommandType(ECHO)
    }

    open spec fn spec_payload(&self) -> Seq<u8> {
        self.message@
    }

    fn command_type() -> (command_type: CommandType) {
        CommandType(ECHO)
    }

    fn payload(&self) -> (bytes: Vec<u8>) {
        let mut bytes: Vec<u8> = Vec::new();
        append(&mut bytes, self.message.as_slice());
        assert(bytes@ =~= self.spec_payload());
        bytes
    }
}

/// Request parameters for generating an asymmetric key.
#[derive(Debug)]
pub struct GenAsymmetricKeyCommand {
    /// ID of the key
    pub key_id: ObjectId,
    /// Label for the key (40-bytes)
    pub label: ObjectLabel,
    /// Domains in which the key will be accessible
    pub domains: Domains,
    /// Capabilities of the key
    pub capabilities: Capabilities,
    /// Key algorithm
    pub algorithm: Algorithm,
}

impl Command for GenAsymmetricKeyCommand {
    open spec fn spec_command_type() -> CommandType {
        CommandType(GEN_ASYMMETRIC_KEY)
    }

    open spec fn spec_payload(&self) -> Seq<u8> {
        be16(self.key_id) + self.label.0@ + be16(encode_domains(self.domains@)) + be64(
            self.capabilities.0,
        ) + seq![self.algorithm.0]
    }

    fn command_type() -> (command_type: CommandType) {
        CommandType(GEN_ASYMMETRIC_KEY)
    }

    fn payload(&self) -> (bytes: Vec<u8>) {
        let mut bytes: Vec<u8> = Vec::new();
        push_be16(&mut bytes, self.key_id);
        append(&mut bytes, self.label.0.as_slice());
        push_be16(&mut bytes, self.domains.to_u16());
        push_be64(&mut bytes, self.capabilities.0);
        bytes.push(self.algorithm.0);
        assert(bytes@ =~= self.spec_payload());
        bytes
    }
}

/// Request parameters for getting information about an object.
#[derive(Debug)]
pub struct GetObjectInfoCommand {
    /// Object ID to obtain information about
    pub object_id: ObjectId,
    /// Type of object to obtain information about
    pub object_type: ObjectType,
}

impl Command for GetObjectInfoCommand {
    open spec fn spec_command_type() -> CommandType {
        CommandType(GET_OBJECT_INFO)
    }

    open spec fn spec_payload(&self) -> Seq<u8> {
        be16(self.object_id) + seq![self.object_type.0]
    }

    fn command_type() -> (command_type: CommandType) {
        CommandType(GET_OBJECT_INFO)
    }

    fn payload(&self) -> (bytes: Vec<u8>) {
        let mut bytes: Vec<u8> = Vec::new();
        push_be16(&mut bytes, self.object_id);
        bytes.push(self.object_type.0);
        assert(bytes@ =~= self.spec_payload());
        bytes
    }
}

/// Request parameters for listing the objects on the device.
#[derive(Debug)]
pub struct ListObjectsCommand {}

impl Command for ListObjectsCommand {
    open spec fn spec_command_type() -> CommandType {
        CommandType(LIST_OBJECTS)
    }

    open spec fn spec_payload(&self) -> Seq<u8> {
        Seq::empty()
    }

    fn command_type() -> (command_type: CommandType) {
        CommandType(LIST_OBJECTS)
    }

    fn payload(&self) -> (bytes: Vec<u8>) {
        Vec::new()
    }
}

} // verus!
