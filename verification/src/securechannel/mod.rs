//! Secure channel to the device: message framing, session keys and the
//! state machine that encrypts and authenticates the traffic.

pub mod challenge;
pub mod channel;
pub mod command_message;
pub mod kdf;
pub mod response_message;

use vstd::prelude::*;

pub use self::challenge::{Challenge, Cryptogram};
pub use self::channel::{ChannelModel, ChannelState, SecureChannel};
pub use self::command_message::{CommandMessage, CommandType};
pub use self::response_message::{ResponseCode, ResponseMessage};

verus! {

/// Identifies the session slot that the device assigned to a session.
#[derive(Clone, Copy, Debug, PartialEq, Eq, Structural)]
pub struct SessionId(pub u8);

impl SessionId {
    /// The session with the given slot number.
    pub fn from_u8(id: u8) -> (session_id: SessionId)
        ensures
            session_id == SessionId(id),
    {
        SessionId(id)
    }

    /// The slot number of this session.
    pub fn to_u8(&self) -> (id: u8)
        ensures
            id == self.0,
    {
        self.0
    }
}

} // verus!
