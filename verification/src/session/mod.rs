//! Sessions with the device.

pub mod connection;

pub use self::connection::{Connection, ConnectionModel, ConnectionState};
