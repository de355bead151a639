//! AES-256-GCM and the operating system's random source.
//!
//! Nothing in this module is proved: each function states what the
//! `aes-gcm` crate does, and the rest of the library builds on that.

use aes_gcm::aead::rand_core::RngCore;
use aes_gcm::aead::{Aead, KeyInit, OsRng};
use aes_gcm::{Aes256Gcm, Key, Nonce};
use vstd::prelude::*;

verus! {

/// Length of a nonce in bytes (96 bits).
pub const NONCE_LEN: usize = 12;

/// Length of the authentication tag in bytes (128 bits).
pub const TAG_LEN: usize = 16;

/// The longest plaintext that AES-GCM encrypts, in bytes.
pub const MAX_PLAINTEXT_LEN: u64 = 0x10_0000_0000;

/// What `Aes256Gcm::encrypt` returns for a key, a nonce and a plaintext,
/// with no associated data: the ciphertext followed by the tag.
pub uninterp spec fn aes256_gcm_seal(key: Seq<u8>, nonce: Seq<u8>, plaintext: Seq<u8>) -> Seq<u8>;

/// What `Aes256Gcm::decrypt` returns for a key, a nonce and a ciphertext
/// with its tag, with no associated data: the plaintext, or nothing when
/// the tag does not authenticate the ciphertext.
pub uninterp spec fn aes256_gcm_open(key: Seq<u8>, nonce: Seq<u8>, sealed: Seq<u8>) -> Option<
    Seq<u8>,
>;

/// `Aes256Gcm::encrypt` without associated data.
///
/// Believed of it: it fails exactly on a plaintext of more than 2^36
/// bytes; its output is a function of key, nonce and plaintext, is 16
/// bytes longer than the plaintext, and `Aes256Gcm::decrypt` with the
/// same key and nonce gives the plaintext back.
#[verifier::external_body]
pub(crate) fn seal(key: &[u8; 32], nonce: &[u8; 12], plaintext: &[u8]) -> (r: Option<Vec<u8>>)
    ensures
        r is Some <==> plaintext@.len() <= MAX_PLAINTEXT_LEN,
        r matches Some(sealed) ==> {
            &&& sealed@ == aes256_gcm_seal(key@, nonce@, plaintext@)
            &&& sealed@.len() == plaintext@.len() + TAG_LEN
            &&& aes256_gcm_open(key@, nonce@, sealed@) == Some(plaintext@)
        },
{
    let cipher = Aes256Gcm::new(Key::<Aes256Gcm>::from_slice(key));
    match cipher.encrypt(Nonce::from_slice(nonce), plaintext) {
        Ok(sealed) => Some(sealed),
        Err(_) => None,
    }
}

/// `Aes256Gcm::decrypt` without associated data.
///
/// Believed of it: its result is a function of key, nonce and input.
#[verifier::external_body]
pub(crate) fn open(key: &[u8; 32], nonce: &[u8; 12], sealed: &[u8]) -> (r: Option<Vec<u8>>)
    ensures
        match r {
            Some(plaintext) => aes256_gcm_open(key@, nonce@, sealed@) == Some(plaintext@),
            None => aes256_gcm_open(key@, nonce@, sealed@) is None,
        },
{
    let cipher = Aes256Gcm::new(Key::<Aes256Gcm>::from_slice(key));
    match cipher.decrypt(Nonce::from_slice(nonce), sealed) {
        Ok(plaintext) => Some(plaintext),
        Err(_) => None,
    }
}

/// `OsRng::try_fill_bytes` on a fresh buffer of `len` bytes.
///
/// Believed of it: when it succeeds the buffer still has `len` bytes.
/// Nothing is said of their values.
#[verifier::external_body]
pub(crate) fn os_random(len: usize) -> (r: Option<Vec<u8>>)
    ensures
        r matches Some(bytes) ==> bytes@.len() == len,
{
    let mut bytes = vec![0u8; len];
    match OsRng.try_fill_bytes(&mut bytes) {
        Ok(()) => Some(bytes),
        Err(_) => None,
    }
}

} // verus!
