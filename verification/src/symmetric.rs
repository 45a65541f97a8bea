//! The symmetric primitives: SHA-256 and the AES-256 block cipher.
//!
//! Both are computed by outside crates (`sha2`, `aes`). What they return is
//! named here and never stated; of the cipher the library relies on one fact
//! only, that deciphering under a key undoes enciphering under that key.

use aes::cipher::generic_array::GenericArray;
use aes::cipher::{BlockDecrypt, BlockEncrypt, KeyInit};
use aes::Aes256;
use sha2::{Digest, Sha256};
use vstd::prelude::*;

verus! {

/// The SHA-256 digest of `data`, 32 bytes.
pub uninterp spec fn sha256_digest(data: Seq<u8>) -> Seq<u8>;

/// The block that AES-256 makes of the 16-byte `block` under the 32-byte `key`.
pub uninterp spec fn aes256_encrypted(key: Seq<u8>, block: Seq<u8>) -> Seq<u8>;

/// The block that AES-256 recovers from the 16-byte `block` under the 32-byte
/// `key`.
pub uninterp spec fn aes256_decrypted(key: Seq<u8>, block: Seq<u8>) -> Seq<u8>;

/// Calls `Sha256::digest`. Trusted: only that the result is what
/// [`sha256_digest`] names.
#[verifier::external_body]
pub(crate) fn sha256(data: &[u8]) -> (r: [u8; 32])
    ensures
        r@ == sha256_digest(data@),
{
    Sha256::digest(data).into()
}

/// Calls `Aes256::encrypt_block` on a copy of `block`. Trusted: the result is
/// what [`aes256_encrypted`] names, and, AES being a permutation of the blocks
/// under each key, `decrypt_block` under the same key gives `block` back.
#[verifier::external_body]
pub(crate) fn aes256_encrypt_block(key: &[u8; 32], block: &[u8; 16]) -> (r: [u8; 16])
    ensures
        r@ == aes256_encrypted(key@, block@),
        aes256_decrypted(key@, r@) == block@,
{
    let cipher = Aes256::new(GenericArray::from_slice(key));
    let mut buffer = GenericArray::clone_from_slice(block);
    cipher.encrypt_block(&mut buffer);
    buffer.into()
}

/// Calls `Aes256::decrypt_block` on a copy of `block`. Trusted: only that the
/// result is what [`aes256_decrypted`] names.
#[verifier::external_body]
pub(crate) fn aes256_decrypt_block(key: &[u8; 32], block: &[u8; 16]) -> (r: [u8; 16])
    ensures
        r@ == aes256_decrypted(key@, block@),
{
    let cipher = Aes256::new(GenericArray::from_slice(key));
    let mut buffer = GenericArray::clone_from_slice(block);
    cipher.decrypt_block(&mut buffer);
    buffer.into()
}

} // verus!
