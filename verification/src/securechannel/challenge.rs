//! Challenges and cryptograms exchanged while a session is set up.

use vstd::prelude::*;

use crate::crypto::{ct_eq, random_bytes};
use crate::error::SessionError;
use crate::wire::first_eight;

verus! {

/// Size in bytes of a challenge.
pub const CHALLENGE_SIZE: usize = 8;

/// Size in bytes of a cryptogram.
pub const CRYPTOGRAM_SIZE: usize = 8;

/// Random value that one side contributes to a session's keys.
#[derive(Clone, Copy, Debug, PartialEq, Eq)]
pub struct Challenge(pub [u8; 8]);

impl View for Challenge {
    type V = Seq<u8>;

    open spec fn view(&self) -> Seq<u8> {
        self.0@
    }
}

impl Challenge {
    /// A challenge drawn from the operating system's random source. Fails
    /// only where that source does.
    pub fn random() -> (r: Result<Challenge, SessionError>)
        ensures
            r is Err ==> r == Err::<Challenge, SessionError>(SessionError::CreateFailed),
    {
        Challenge::from_random(random_bytes::<8>())
    }

    /// The challenge made of the bytes that the random source gave, or
    /// the failure to create a session where it gave none.
    pub fn from_random(bytes: Option<[u8; 8]>) -> (r: Result<Challenge, SessionError>)
        ensures
            r == match bytes {
                Some(drawn) => Ok::<Challenge, SessionError>(Challenge(drawn)),
                None => Err::<Challenge, SessionError>(SessionError::CreateFailed),
            },
    {
        match bytes {
            Some(drawn) => Ok(Challenge(drawn)),
            None => Err(SessionError::CreateFailed),
        }
    }

    /// The challenge made of the first eight bytes of `bytes`.
    pub fn from_slice(bytes: &[u8]) -> (r: Option<Challenge>)
        ensures
            bytes@.len() == CHALLENGE_SIZE ==> r is Some && r->Some_0@ == bytes@,
            bytes@.len() != CHALLENGE_SIZE ==> r is None,
    {
        if bytes.len() != CHALLENGE_SIZE {
            return None;
        }
        let challenge = Challenge(first_eight(bytes));
        assert(challenge@ =~= bytes@);
        Some(challenge)
    }

    /// The bytes of the challenge.
    pub fn as_slice(&self) -> (bytes: &[u8])
        ensures
            bytes@ == self@,
    {
        self.0.as_slice()
    }
}

/// Proof that one side holds the session keys. Cryptograms are compared
/// in constant time only.
#[derive(Clone, Copy, Debug)]
pub struct Cryptogram(pub [u8; 8]);

impl View for Cryptogram {
    type V = Seq<u8>;

    open spec fn view(&self) -> Seq<u8> {
        self.0@
    }
}

impl Cryptogram {
    /// The cryptogram made of `bytes`, which must be eight.
    pub fn from_slice(bytes: &[u8]) -> (r: Option<Cryptogram>)
        ensures
            bytes@.len() == CRYPTOGRAM_SIZE ==> r is Some && r->Some_0@ == bytes@,
            bytes@.len() != CRYPTOGRAM_SIZE ==> r is None,
    {
        if bytes.len() != CRYPTOGRAM_SIZE {
            return None;
        }
        let cryptogram = Cryptogram(first_eight(bytes));
        assert(cryptogram@ =~= bytes@);
        Some(cryptogram)
    }

    /// Tells, in time that does not depend on where they differ, whether
    /// two cryptograms are equal.
    pub fn ct_eq(&self, other: &Cryptogram) -> (equal: bool)
        ensures
            equal == (self@ == other@),
    {
        ct_eq(self.0.as_slice(), other.0.as_slice())
    }

    /// The bytes of the cryptogram.
    pub fn as_slice(&self) -> (bytes: &[u8])
        ensures
            bytes@ == self@,
    {
        self.0.as_slice()
    }
}

} // verus!
