//! Derivation of session keys and cryptograms from the authentication
//! key and the two challenges: CMAC over a fixed-format input that names
//! what is derived, as SCP03 prescribes.

use vstd::prelude::*;

use crate::credentials::AuthKey;
use crate::crypto::{aes128_cmac, cmac_aes128, zeroize_block};
use crate::securechannel::challenge::{Challenge, Cryptogram};
use crate::wire::{append, be16, first_eight, push_be16, zeros};

verus! {

/// Derivation constant of the card cryptogram.
pub const CARD_CRYPTOGRAM: u8 = 0x00;

/// Derivation constant of the host cryptogram.
pub const HOST_CRYPTOGRAM: u8 = 0x01;

/// Derivation constant of the session encryption key.
pub const SESSION_ENC_KEY: u8 = 0x04;

/// Derivation constant of the session key for command MACs.
pub const SESSION_MAC_KEY: u8 = 0x06;

/// Derivation constant of the session key for response MACs.
pub const SESSION_RMAC_KEY: u8 = 0x07;

/// The input of one derivation: a label of eleven zero bytes and the
/// derivation constant, a zero separator, the length of the output in
/// bits, the block counter 1, and the context.
pub open spec fn derivation_data(constant: u8, bits: u16, context: Seq<u8>) -> Seq<u8> {
    zeros(11) + seq![constant, 0u8] + be16(bits) + seq![1u8] + context
}

/// The first `len` bytes derived from `key` for `constant` and `context`.
pub open spec fn derivation(key: Seq<u8>, constant: u8, context: Seq<u8>, len: nat) -> Seq<u8> {
    aes128_cmac(key, derivation_data(constant, (8 * len) as u16, context)).subrange(0, len as int)
}

/// The context of a session's derivations: the host challenge, then the
/// card challenge.
pub open spec fn session_context(host_challenge: Seq<u8>, card_challenge: Seq<u8>) -> Seq<u8> {
    host_challenge + card_challenge
}

/// What the keys of a session hold.
pub struct SessionKeysModel {
    pub enc_key: Seq<u8>,
    pub mac_key: Seq<u8>,
    pub rmac_key: Seq<u8>,
}

/// The keys that the authentication key and the challenges give: the
/// encryption key from the first half of the authentication key, the two
/// MAC keys from its second half, each under its own constant.
pub open spec fn session_keys(
    auth_key: Seq<u8>,
    host_challenge: Seq<u8>,
    card_challenge: Seq<u8>,
) -> SessionKeysModel {
    let context = session_context(host_challenge, card_challenge);
    SessionKeysModel {
        enc_key: derivation(AuthKey::spec_enc_key(auth_key), SESSION_ENC_KEY, context, 16),
        mac_key: derivation(AuthKey::spec_mac_key(auth_key), SESSION_MAC_KEY, context, 16),
        rmac_key: derivation(AuthKey::spec_mac_key(auth_key), SESSION_RMAC_KEY, context, 16),
    }
}

/// The cryptogram by which the device proves that it holds the keys.
pub open spec fn card_cryptogram(
    keys: SessionKeysModel,
    host_challenge: Seq<u8>,
    card_challenge: Seq<u8>,
) -> Seq<u8> {
    derivation(keys.mac_key, CARD_CRYPTOGRAM, session_context(host_challenge, card_challenge), 8)
}

/// The cryptogram by which the host proves that it holds the keys.
pub open spec fn host_cryptogram(
    keys: SessionKeysModel,
    host_challenge: Seq<u8>,
    card_challenge: Seq<u8>,
) -> Seq<u8> {
    derivation(keys.mac_key, HOST_CRYPTOGRAM, session_context(host_challenge, card_challenge), 8)
}

/// Derivations under different constants have different inputs, whatever
/// the context: what proves one side cannot be computed as the proof of
/// the other, nor as a key.
pub proof fn constants_separate_derivations(first: u8, second: u8, bits: u16, context: Seq<u8>)
    requires
        first != second,
    ensures
        derivation_data(first, bits, context) != derivation_data(second, bits, context),
        derivation_data(first, bits, context).len() == 16 + context.len(),
{
    assert(derivation_data(first, bits, context)[11] == first);
    assert(derivation_data(second, bits, context)[11] == second);
}

/// The three keys of a session. They are overwritten when the value is
/// dropped.
pub struct SessionKeys {
    /// Key that encrypts commands and decrypts responses.
    pub enc_key: [u8; 16],
    /// Key that authenticates commands.
    pub mac_key: [u8; 16],
    /// Key that authenticates responses.
    pub rmac_key: [u8; 16],
}

impl View for SessionKeys {
    type V = SessionKeysModel;

    open spec fn view(&self) -> SessionKeysModel {
        SessionKeysModel {
            enc_key: self.enc_key@,
            mac_key: self.mac_key@,
            rmac_key: self.rmac_key@,
        }
    }
}

impl Drop for SessionKeys {
    /// Overwrites the keys when they go out of scope, on whatever path.
    fn drop(&mut self)
        opens_invariants none
        no_unwind
    {
        zeroize_block(&mut self.enc_key);
        zeroize_block(&mut self.mac_key);
        zeroize_block(&mut self.rmac_key);
    }
}

/// Computes the whole CMAC block of one derivation.
fn derive_block(key: &[u8; 16], constant: u8, bits: u16, context: &[u8; 16]) -> (block: [u8; 16])
    ensures
        block@ == aes128_cmac(key@, derivation_data(constant, bits, context@)),
{
    let mut data: Vec<u8> = Vec::new();
    let mut k: usize = 0;
    while k < 11
        invariant
            k <= 11,
            data@ == zeros(k as nat),
        decreases 11 - k,
    {
        data.push(0u8);
        k = k + 1;
        assert(data@ =~= zeros(k as nat));
    }
    data.push(constant);
    data.push(0u8);
    push_be16(&mut data, bits);
    data.push(1u8);
    append(&mut data, context.as_slice());
    assert(data@ =~= derivation_data(constant, bits, context@));
    cmac_aes128(key, data.as_slice())
}

/// Derives a 16-byte key.
pub fn derive_key(key: &[u8; 16], constant: u8, context: &[u8; 16]) -> (derived: [u8; 16])
    ensures
        derived@ == derivation(key@, constant, context@, 16),
{
    let block = derive_block(key, constant, 128, context);
    assert(block@ =~= block@.subrange(0, 16));
    block
}

/// Derives an 8-byte cryptogram.
pub fn derive_cryptogram(key: &[u8; 16], constant: u8, context: &[u8; 16]) -> (derived: [u8; 8])
    ensures
        derived@ == derivation(key@, constant, context@, 8),
{
    let block = derive_block(key, constant, 64, context);
    first_eight(block.as_slice())
}

/// Joins the two challenges to the context of a session.
pub fn context_of(host_challenge: Challenge, card_challenge: Challenge) -> (context: [u8; 16])
    ensures
        context@ == session_context(host_challenge@, card_challenge@),
{
    let mut context = [0u8; 16];
    let mut k: usize = 0;
    while k < 8
        invariant
            k <= 8,
            forall|j: int| 0 <= j < k ==> context@[j] == host_challenge@[j],
            forall|j: int| 0 <= j < k ==> context@[8 + j] == card_challenge@[j],
        decreases 8 - k,
    {
        context[k] = host_challenge.0[k];
        context[8 + k] = card_challenge.0[k];
        k = k + 1;
    }
    assert(context@ =~= host_challenge@ + card_challenge@);
    context
}

/// Derives the keys of a session from the authentication key and both
/// challenges. The same inputs give the same keys, so that host and
/// device agree.
pub fn derive_session_keys(
    auth_key: &AuthKey,
    host_challenge: Challenge,
    card_challenge: Challenge,
) -> (keys: SessionKeys)
    ensures
        keys@ == session_keys(auth_key@, host_challenge@, card_challenge@),
{
    let context = context_of(host_challenge, card_challenge);
    let mut static_enc = auth_key.enc_key();
    let mut static_mac = auth_key.mac_key();
    let keys = SessionKeys {
        enc_key: derive_key(&static_enc, SESSION_ENC_KEY, &context),
        mac_key: derive_key(&static_mac, SESSION_MAC_KEY, &context),
        rmac_key: derive_key(&static_mac, SESSION_RMAC_KEY, &context),
    };
    zeroize_block(&mut static_enc);
    zeroize_block(&mut static_mac);
    keys
}

/// Computes the cryptogram that the device must present.
pub fn compute_card_cryptogram(
    keys: &SessionKeys,
    host_challenge: Challenge,
    card_challenge: Challenge,
) -> (cryptogram: Cryptogram)
    ensures
        cryptogram@ == card_cryptogram(keys@, host_challenge@, card_challenge@),
{
    let context = context_of(host_challenge, card_challenge);
    Cryptogram(derive_cryptogram(&keys.mac_key, CARD_CRYPTOGRAM, &context))
}

/// Computes the cryptogram that the host presents.
pub fn compute_host_cryptogram(
    keys: &SessionKeys,
    host_challenge: Challenge,
    card_challenge: Challenge,
) -> (cryptogram: Cryptogram)
    ensures
        cryptogram@ == host_cryptogram(keys@, host_challenge@, card_challenge@),
{
    let context = context_of(host_challenge, card_challenge);
    Cryptogram(derive_cryptogram(&keys.mac_key, HOST_CRYPTOGRAM, &context))
}

} // verus!
