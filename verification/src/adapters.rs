//! The transport below a session: whatever moves opaque byte strings to
//! the device and back, one request and one response at a time.

use uuid::Uuid;
use vstd::prelude::*;

use crate::error::AdapterError;

verus! {

/// A transport to the device. Implementations live outside this crate;
/// nothing is assumed of what their methods return.
pub trait Adapter: Sized {
    /// What the adapter needs to know to reach the device.
    type Config;

    /// Opens a connection to the device.
    fn open(config: &Self::Config) -> Result<Self, AdapterError>;

    /// Probes whether the connection is healthy. This may cost a round
    /// trip.
    fn is_open(&self) -> bool;

    /// Sends a message, identified by `uuid`, and waits for the response.
    fn send_message(&self, uuid: Uuid, message: Vec<u8>) -> Result<Vec<u8>, AdapterError>;
}

} // verus!
