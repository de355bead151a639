//! The operations as an application calls them: keys travel as
//! hexadecimal text, and the empty string means the default key.

use crate::aead::os_random;
use crate::codec::{decode, decoding, encode, encodes, encoding_failure};
use crate::error::{CodecError, Failure};
use crate::frame::{framing, CURRENT_VERSION};
use crate::header::{header_of, inspect_container_header};
use crate::hex::{decode_hex, encode_hex, hex_decoding, hex_encoding, hex_round_trip};
use crate::key::KEY_LEN;
use vstd::prelude::*;

verus! {

/// What `decode_container` returns. Key text that is not hexadecimal is
/// held against the caller only where a key is needed: behind the checks
/// of magic tag, lengths and label, and not for a legacy container.
pub open spec fn container_decoding(bytes: Seq<u8>, key_hex: Seq<char>) -> Result<
    Seq<char>,
    Failure,
> {
    match hex_decoding(key_hex) {
        Some(material) => decoding(bytes, material),
        None => match framing(bytes) {
            Err(e) => Err(e),
            Ok(frame) => match header_of(frame) {
                Err(e) => Err(e),
                Ok(_) => if frame.version == CURRENT_VERSION {
                    Err(Failure::InvalidKeyHex)
                } else {
                    decoding(bytes, Seq::empty())
                },
            },
        },
    }
}

/// Encodes `plaintext` under the key written in `key_hex`: 64
/// hexadecimal digits, or the empty string for the default key.
///
/// Key text that is not hexadecimal fails with `InvalidKeyHex`; then
/// the failures of `encode` follow, in its order.
pub fn encode_container(plaintext: &str, key_hex: &str, key_label: &str) -> (r: Result<
    Vec<u8>,
    CodecError,
>)
    ensures
        hex_decoding(key_hex@) is None ==> (r matches Err(e) && e@ == Failure::InvalidKeyHex),
        hex_decoding(key_hex@) matches Some(material) ==> {
            &&& encoding_failure(plaintext@, material, key_label@) matches Some(failure) ==> (
            r matches Err(e) && e@ == failure)
            &&& r matches Ok(container) ==> encodes(
                container@,
                plaintext@,
                material,
                key_label@,
            )
            &&& r matches Err(e) ==> e@ == Failure::EncryptionFailure || encoding_failure(
                plaintext@,
                material,
                key_label@,
            ) == Some(e@)
        },
{
    match decode_hex(key_hex) {
        Some(material) => encode(plaintext, material.as_slice(), key_label),
        None => Err(CodecError::InvalidKeyHex),
    }
}

/// Decodes a container with the key written in `key_hex`: 64
/// hexadecimal digits, or the empty string for the default key.
pub fn decode_container(data: &[u8], key_hex: &str) -> (r: Result<String, CodecError>)
    ensures
        match r {
            Ok(text) => container_decoding(data@, key_hex@) == Ok::<Seq<char>, Failure>(text@),
            Err(e) => container_decoding(data@, key_hex@) == Err::<Seq<char>, Failure>(e@),
        },
{
    match decode_hex(key_hex) {
        Some(material) => decode(data, material.as_slice()),
        None => {
            let header = match inspect_container_header(data) {
                Ok(header) => header,
                Err(e) => {
                    return Err(e);
                },
            };
            if header.version == CURRENT_VERSION {
                Err(CodecError::InvalidKeyHex)
            } else {
                let none: [u8; 0] = [];
                decode(data, none.as_slice())
            }
        },
    }
}

/// Writes the bytes that the random source gave, if it gave any, as
/// the key text that the other operations read.
pub fn key_text_of(drawn: Option<Vec<u8>>) -> (r: Option<String>)
    ensures
        match drawn {
            Some(bytes) => r matches Some(key_hex) && key_hex@ == hex_encoding(bytes@)
                && hex_decoding(key_hex@) == Some(bytes@),
            None => r is None,
        },
{
    match drawn {
        Some(bytes) => {
            proof {
                hex_round_trip(bytes@);
            }
            Some(encode_hex(bytes.as_slice()))
        },
        None => None,
    }
}

/// Draws a fresh random key from the operating system and returns it as
/// 64 lower-case hexadecimal digits; nothing if the operating system
/// gives no random bytes.
pub fn generate_random_key() -> (r: Option<String>)
    ensures
        r matches Some(key_hex) ==> {
            &&& hex_decoding(key_hex@) matches Some(material)
            &&& hex_decoding(key_hex@)->0.len() == KEY_LEN
            &&& key_hex@ == hex_encoding(hex_decoding(key_hex@)->0)
            &&& key_hex@.len() == 2 * KEY_LEN
        },
{
    key_text_of(os_random(KEY_LEN))
}

} // verus!
