//! What commands say of the objects on the device: identifiers, labels,
//! types, algorithms and capabilities, each as it travels.

use vstd::prelude::*;

verus! {

/// Identifier of an object on the device.
pub type ObjectId = u16;

/// Label of an object, padded to its full size.
#[derive(Clone, Copy, Debug, PartialEq, Eq)]
pub struct ObjectLabel(pub [u8; 40]);

/// Tag that tells the kind of an object.
#[derive(Clone, Copy, Debug, PartialEq, Eq, Structural)]
pub struct ObjectType(pub u8);

/// Tag that names a cryptographic algorithm.
#[derive(Clone, Copy, Debug, PartialEq, Eq, Structural)]
pub struct Algorithm(pub u8);

/// Bitfield of what may be done with an object.
#[derive(Clone, Copy, Debug, PartialEq, Eq, Structural)]
pub struct Capabilities(pub u64);

} // verus!
