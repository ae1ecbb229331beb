//! Errors reported by sessions and by the transport below them.

use vstd::prelude::*;

verus! {

/// Failure reported by a transport adapter.
#[derive(Clone, Copy, Debug, PartialEq, Eq)]
pub enum AdapterError {
    /// The configured address cannot be used.
    AddrInvalid,
    /// No connection to the device could be made.
    ConnectionFailed,
    /// Reading from or writing to the transport failed, or timed out.
    IoError,
    /// The request could not be delivered.
    RequestError,
    /// The transport did not deliver a usable response.
    ResponseError,
}

/// Failure of a session operation.
#[derive(Clone, Copy, Debug, PartialEq, Eq)]
pub enum SessionError {
    /// Mutual authentication failed: the card cryptogram did not match,
    /// or the device rejected the host cryptogram.
    AuthFailed,
    /// The channel is not in a state that allows the operation.
    ChannelUnusable,
    /// The adapter could not be opened or is unhealthy, or no channel exists.
    CreateFailed,
    /// A message does not fit the wire envelope's length field.
    MessageTooLong,
    /// A malformed envelope, a length mismatch or an unexpected response.
    ProtocolError,
    /// The device answered with an error status, carried here.
    ResponseError { code: u8 },
    /// The message counter of the session is exhausted.
    SessionLimitReached,
    /// The transport failed.
    Transport(AdapterError),
    /// A message authentication code did not verify.
    VerifyFailed,
}

impl SessionError {
    /// Whether a session cannot go on after this error. A device-reported
    /// error status and a refused call leave the session usable.
    pub open spec fn is_fatal(self) -> bool {
        !(self is ResponseError || self is ChannelUnusable || self is MessageTooLong)
    }

    /// Tells whether the session must be given up after this error.
    pub fn terminates_channel(&self) -> (fatal: bool)
        ensures
            fatal == self.is_fatal(),
    {
        match self {
            SessionError::ResponseError { .. } => false,
            SessionError::ChannelUnusable => false,
            SessionError::MessageTooLong => false,
            _ => true,
        }
    }
}

} // verus!
