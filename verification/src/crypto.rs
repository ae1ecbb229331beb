//! The primitives of the secure channel that other crates compute: `aes`,
//! `cbc`, `cmac`, `subtle`, `zeroize`, `getrandom` and `uuid`. What this
//! module states of them is taken on trust.

use aes::cipher::block_padding::Iso7816;
use aes::cipher::{BlockDecryptMut, BlockEncrypt, BlockEncryptMut, KeyInit, KeyIvInit};
use aes::Aes128;
use cmac::{Cmac, Mac};
use subtle::ConstantTimeEq;
use uuid::Uuid;
use vstd::prelude::*;
use zeroize::Zeroize;

verus! {

/// Identifier that correlates a command with its log entries and its
/// transport request.
#[verifier::external_type_specification]
#[verifier::external_body]
pub struct ExUuid(Uuid);

/// The identifier that sixteen bytes give once they are marked as a
/// random identifier.
pub uninterp spec fn random_uuid(bytes: Seq<u8>) -> Uuid;

/// The CMAC-AES128 tag of `message` under `key`.
pub uninterp spec fn aes128_cmac(key: Seq<u8>, message: Seq<u8>) -> Seq<u8>;

/// The AES-128 encryption of the single block `block` under `key`.
pub uninterp spec fn aes128_encrypt_block(key: Seq<u8>, block: Seq<u8>) -> Seq<u8>;

/// The AES-128 encryption in CBC mode of `plaintext`, padded as ISO 7816-4
/// prescribes, under `key` and starting from `iv`.
pub uninterp spec fn aes128_cbc_encrypt(key: Seq<u8>, iv: Seq<u8>, plaintext: Seq<u8>) -> Seq<u8>;

/// The plaintext that AES-128 decryption in CBC mode under `key` and from
/// `iv` finds in `ciphertext` once the ISO 7816-4 padding is taken off, or
/// `None` where the ciphertext is no whole number of blocks or the padding
/// is malformed.
pub uninterp spec fn aes128_cbc_decrypt(key: Seq<u8>, iv: Seq<u8>, ciphertext: Seq<u8>) -> Option<
    Seq<u8>,
>;

/// Computes a CMAC-AES128 tag with `cmac::Cmac<aes::Aes128>`: `Mac::new`,
/// one `Mac::update` with the whole message, `Mac::finalize`. Trusted: the
/// tag is a function of key and message alone.
#[verifier::external_body]
pub(crate) fn cmac_aes128(key: &[u8; 16], message: &[u8]) -> (tag: [u8; 16])
    ensures
        tag@ == aes128_cmac(key@, message@),
{
    let mut mac = <Cmac<Aes128> as Mac>::new(key.into());
    mac.update(message);
    let mut tag = [0u8; 16];
    tag.copy_from_slice(&mac.finalize().into_bytes());
    tag
}

/// Encrypts one block with `aes::Aes128`: `KeyInit::new`, then
/// `BlockEncrypt::encrypt_block`. Trusted: the result is a function of key
/// and block alone.
#[verifier::external_body]
pub(crate) fn encrypt_block_aes128(key: &[u8; 16], block: &[u8; 16]) -> (out: [u8; 16])
    ensures
        out@ == aes128_encrypt_block(key@, block@),
{
    let mut out = *block;
    Aes128::new(key.into()).encrypt_block((&mut out).into());
    out
}

/// Pads and encrypts with `cbc::Encryptor<aes::Aes128>`: `KeyIvInit::new`,
/// then `BlockEncryptMut::encrypt_padded_vec_mut` with `Iso7816` padding.
/// Trusted: the ciphertext is a function of key, IV and plaintext alone.
#[verifier::external_body]
pub(crate) fn cbc_encrypt_aes128(key: &[u8; 16], iv: &[u8; 16], plaintext: &[u8]) -> (ciphertext:
    Vec<u8>)
    ensures
        ciphertext@ == aes128_cbc_encrypt(key@, iv@, plaintext@),
{
    cbc::Encryptor::<Aes128>::new(key.into(), iv.into()).encrypt_padded_vec_mut::<Iso7816>(
        plaintext,
    )
}

/// Decrypts and unpads with `cbc::Decryptor<aes::Aes128>`: `KeyIvInit::new`,
/// then `BlockDecryptMut::decrypt_padded_vec_mut` with `Iso7816` padding,
/// whose error becomes `None`. Trusted: the outcome is a function of key,
/// IV and ciphertext alone.
#[verifier::external_body]
pub(crate) fn cbc_decrypt_aes128(key: &[u8; 16], iv: &[u8; 16], ciphertext: &[u8]) -> (plaintext:
    Option<Vec<u8>>)
    ensures
        match plaintext {
            Some(bytes) => aes128_cbc_decrypt(key@, iv@, ciphertext@) == Some(bytes@),
            None => aes128_cbc_decrypt(key@, iv@, ciphertext@) is None,
        },
{
    match cbc::Decryptor::<Aes128>::new(key.into(), iv.into()).decrypt_padded_vec_mut::<Iso7816>(
        ciphertext,
    ) {
        Ok(bytes) => Some(bytes),
        Err(_) => None,
    }
}

/// Compares two byte strings with `subtle::ConstantTimeEq::ct_eq` on
/// slices, in time that does not depend on where they differ. Trusted: the
/// answer is whether the two are equal.
#[verifier::external_body]
pub(crate) fn ct_eq(a: &[u8], b: &[u8]) -> (equal: bool)
    ensures
        equal == (a@ == b@),
{
    a.ct_eq(b).into()
}

/// Overwrites a block of key material with `zeroize::Zeroize::zeroize`,
/// which the compiler may not elide. Trusted: every byte is zero
/// afterwards, and the call does not panic.
#[verifier::external_body]
pub(crate) fn zeroize_block(block: &mut [u8; 16])
    ensures
        final(block)@ == Seq::new(16, |i: int| 0u8),
    opens_invariants none
    no_unwind
{
    block.zeroize();
}

/// Asks `getrandom::getrandom` for `N` bytes from the operating system's
/// random source; `None` where that source fails. Nothing is claimed of
/// the bytes.
#[verifier::external_body]
pub(crate) fn random_bytes<const N: usize>() -> Option<[u8; N]> {
    let mut bytes = [0u8; N];
    match getrandom::getrandom(&mut bytes) {
        Ok(()) => Some(bytes),
        Err(_) => None,
    }
}

/// Makes an identifier of sixteen bytes with
/// `uuid::Builder::from_random_bytes`, which marks them as a random
/// identifier, and `Builder::into_uuid`. Trusted: the identifier is a
/// function of the bytes alone.
#[verifier::external_body]
pub(crate) fn uuid_from_random_bytes(bytes: [u8; 16]) -> (uuid: Uuid)
    ensures
        uuid == random_uuid(bytes@),
{
    uuid::Builder::from_random_bytes(bytes).into_uuid()
}

} // verus!
