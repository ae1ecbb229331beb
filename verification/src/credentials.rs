//! Credentials with which a session authenticates to the device.

use vstd::prelude::*;

use crate::object::ObjectId;

verus! {

/// Long-term key shared with the device. Its first half keys the
/// derivation of the session's encryption key, its second half that of
/// the session's MAC keys.
#[derive(Clone)]
pub struct AuthKey(pub [u8; 32]);

impl View for AuthKey {
    type V = Seq<u8>;

    open spec fn view(&self) -> Seq<u8> {
        self.0@
    }
}

impl AuthKey {
    /// The half that keys the derivation of the session encryption key.
    pub open spec fn spec_enc_key(key: Seq<u8>) -> Seq<u8> {
        key.subrange(0, 16)
    }

    /// The half that keys the derivation of the session MAC keys.
    pub open spec fn spec_mac_key(key: Seq<u8>) -> Seq<u8> {
        key.subrange(16, 32)
    }

    /// Copies out the half that keys the encryption key derivation.
    pub fn enc_key(&self) -> (half: [u8; 16])
        ensures
            half@ == Self::spec_enc_key(self@),
    {
        let mut half = [0u8; 16];
        let mut k: usize = 0;
        while k < 16
            invariant
                k <= 16,
                forall|j: int| 0 <= j < k ==> half@[j] == self.0@[j],
            decreases 16 - k,
        {
            half[k] = self.0[k];
            k = k + 1;
        }
        assert(half@ =~= Self::spec_enc_key(self@));
        half
    }

    /// Copies out the half that keys the MAC key derivation.
    pub fn mac_key(&self) -> (half: [u8; 16])
        ensures
            half@ == Self::spec_mac_key(self@),
    {
        let mut half = [0u8; 16];
        let mut k: usize = 0;
        while k < 16
            invariant
                k <= 16,
                forall|j: int| 0 <= j < k ==> half@[j] == self.0@[16 + j],
            decreases 16 - k,
        {
            half[k] = self.0[16 + k];
            k = k + 1;
        }
        assert(half@ =~= Self::spec_mac_key(self@));
        half
    }
}

/// An authentication key and the identifier under which the device holds it.
#[derive(Clone)]
pub struct Credentials {
    /// Identifier of the authentication key on the device.
    pub auth_key_id: ObjectId,
    /// The authentication key.
    pub auth_key: AuthKey,
}

impl Credentials {
    /// Credentials from a key and its identifier.
    pub fn new(auth_key_id: ObjectId, auth_key: AuthKey) -> (credentials: Credentials)
        ensures
            credentials.auth_key_id == auth_key_id,
            credentials.auth_key == auth_key,
    {
        Credentials { auth_key_id, auth_key }
    }
}

} // verus!
