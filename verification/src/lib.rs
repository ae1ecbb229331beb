//! Client side of an authenticated, encrypted session with a hardware
//! security module, following the SCP03 secure channel protocol.
//!
//! The crate holds the protocol logic: message framing, session key
//! derivation, the secure channel state machine and the connection that
//! drives it over an abstract transport.

pub mod adapters;
pub mod commands;
pub mod credentials;
pub mod crypto;
pub mod domain;
pub mod error;
pub mod object;
pub mod securechannel;
pub mod session;
pub mod wire;

pub use crate::adapters::Adapter;
pub use crate::commands::{
    Command, DeleteObjectCommand, EchoCommand, GenAsymmetricKeyCommand, GetObjectInfoCommand,
    ListObjectsCommand,
};
pub use crate::credentials::{AuthKey, Credentials};
pub use crate::domain::{Domain, Domains};
pub use crate::error::{AdapterError, SessionError};
pub use crate::object::{Algorithm, Capabilities, ObjectId, ObjectLabel, ObjectType};
pub use crate::session::{Connection, ConnectionState};
