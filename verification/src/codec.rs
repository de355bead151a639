//! Encoding a text into a container and decoding it again.

use crate::aead::{
    aes256_gcm_open, aes256_gcm_seal, open, os_random, seal, MAX_PLAINTEXT_LEN, NONCE_LEN,
    TAG_LEN,
};
use crate::error::{CodecError, Failure};
use crate::frame::{
    current_layout, framing, nonce_at, parse_frame, CURRENT_VERSION, MAGIC, MAX_LABEL_LEN,
};
use crate::header::{header_of, read_header};
use crate::key::{effective_key, resolve_key, DEFAULT_KEY};
use crate::text::text_of;
use vstd::prelude::*;
use vstd::utf8::*;

verus! {

/// The key that decryption uses for a frame: a current frame takes the
/// caller's key material, a legacy frame the default key whatever the
/// caller supplied.
pub open spec fn decryption_key(version: u8, material: Seq<u8>) -> Option<Seq<u8>> {
    if version == CURRENT_VERSION {
        effective_key(material)
    } else {
        Some(DEFAULT_KEY@)
    }
}

/// What is returned once the cipher has answered: a refusal is a
/// decryption failure that carries the key label, accepted bytes must
/// be UTF-8.
pub open spec fn opened_text(opened: Option<Seq<u8>>, key_name: Seq<char>) -> Result<
    Seq<char>,
    Failure,
> {
    match opened {
        None => Err(Failure::DecryptionFailure { key_name }),
        Some(plaintext) => if valid_utf8(plaintext) {
            Ok(decode_utf8(plaintext))
        } else {
            Err(Failure::InvalidEncoding)
        },
    }
}

/// What decoding returns for an input and the caller's key material.
/// The checks come in this order: magic tag, lengths, label, key
/// material, authentication, text encoding.
pub open spec fn decoding(bytes: Seq<u8>, material: Seq<u8>) -> Result<Seq<char>, Failure> {
    match framing(bytes) {
        Err(e) => Err(e),
        Ok(frame) => match header_of(frame) {
            Err(e) => Err(e),
            Ok(header) => match decryption_key(frame.version, material) {
                None => Err(Failure::InvalidKeyLength),
                Some(key) => opened_text(
                    aes256_gcm_open(key, frame.nonce, frame.sealed),
                    header.key_name,
                ),
            },
        },
    }
}

/// The failure that encoding owes to its inputs alone, if any: the key
/// material is judged first, then the label, then the length of the text.
pub open spec fn encoding_failure(text: Seq<char>, material: Seq<u8>, label: Seq<char>) -> Option<
    Failure,
> {
    if effective_key(material) is None {
        Some(Failure::InvalidKeyLength)
    } else if encode_utf8(label).len() > MAX_LABEL_LEN {
        Some(Failure::LabelTooLong)
    } else if encode_utf8(text).len() > MAX_PLAINTEXT_LEN {
        Some(Failure::EncryptionFailure)
    } else {
        None
    }
}

/// What encoding returns for a text, key material, a label and a nonce:
/// always the current layout, never the legacy one.
pub open spec fn encoding(
    text: Seq<char>,
    material: Seq<u8>,
    label: Seq<char>,
    nonce: Seq<u8>,
) -> Result<Seq<u8>, Failure> {
    match encoding_failure(text, material, label) {
        Some(e) => Err(e),
        None => Ok(
            current_layout(
                encode_utf8(label),
                nonce,
                aes256_gcm_seal(effective_key(material)->0, nonce, encode_utf8(text)),
            ),
        ),
    }
}

/// `container` is the encoding of the inputs with `nonce`, and the
/// cipher gives the text back for what it sealed.
pub open spec fn encoded_with(
    container: Seq<u8>,
    text: Seq<char>,
    material: Seq<u8>,
    label: Seq<char>,
    nonce: Seq<u8>,
) -> bool {
    let key = effective_key(material)->0;
    let plaintext = encode_utf8(text);
    let sealed = aes256_gcm_seal(key, nonce, plaintext);
    &&& nonce.len() == NONCE_LEN
    &&& encoding(text, material, label, nonce) == Ok::<Seq<u8>, Failure>(container)
    &&& sealed.len() == plaintext.len() + TAG_LEN
    &&& aes256_gcm_open(key, nonce, sealed) == Some(plaintext)
}

/// `container` is an encoding of the inputs, with some nonce.
pub open spec fn encodes(
    container: Seq<u8>,
    text: Seq<char>,
    material: Seq<u8>,
    label: Seq<char>,
) -> bool {
    exists|nonce: Seq<u8>| encoded_with(container, text, material, label, nonce)
}

/// Appends `bytes` to `out`.
fn append(out: &mut Vec<u8>, bytes: &[u8])
    ensures
        final(out)@ == old(out)@ + bytes@,
{
    let ghost before = out@;
    let mut i: usize = 0;
    while i < bytes.len()
        invariant
            i <= bytes@.len(),
            out@ == before + bytes@.subrange(0, i as int),
        decreases bytes@.len() - i,
    {
        out.push(bytes[i]);
        i = i + 1;
    }
}

/// Lays out a container in the current format around a sealed payload.
pub fn assemble(label: &str, nonce: &[u8; 12], sealed: &[u8]) -> (r: Result<Vec<u8>, CodecError>)
    ensures
        match r {
            Ok(container) => {
                &&& encode_utf8(label@).len() <= MAX_LABEL_LEN
                &&& container@ == current_layout(encode_utf8(label@), nonce@, sealed@)
            },
            Err(e) => encode_utf8(label@).len() > MAX_LABEL_LEN && e@ == Failure::LabelTooLong,
        },
{
    let label_bytes = label.as_bytes();
    if label_bytes.len() > MAX_LABEL_LEN {
        return Err(CodecError::LabelTooLong);
    }
    let mut container: Vec<u8> = Vec::new();
    append(&mut container, MAGIC.as_slice());
    container.push(CURRENT_VERSION);
    container.push(label_bytes.len() as u8);
    append(&mut container, label_bytes);
    append(&mut container, nonce.as_slice());
    append(&mut container, sealed);
    Ok(container)
}

/// Encodes `plaintext` with a nonce that the caller has drawn. A nonce
/// must never be used twice with one key: `encode` draws a fresh one.
pub fn encode_with_nonce(
    plaintext: &str,
    key_material: &[u8],
    key_label: &str,
    nonce: &[u8; 12],
) -> (r: Result<Vec<u8>, CodecError>)
    ensures
        match r {
            Ok(container) => encoded_with(
                container@,
                plaintext@,
                key_material@,
                key_label@,
                nonce@,
            ),
            Err(e) => encoding(plaintext@, key_material@, key_label@, nonce@) == Err::<
                Seq<u8>,
                Failure,
            >(e@),
        },
{
    let key = match resolve_key(key_material) {
        Some(key) => key,
        None => {
            return Err(CodecError::InvalidKeyLength);
        },
    };
    if key_label.as_bytes().len() > MAX_LABEL_LEN {
        return Err(CodecError::LabelTooLong);
    }
    match seal(&key, nonce, plaintext.as_bytes()) {
        Some(sealed) => assemble(key_label, nonce, sealed.as_slice()),
        None => Err(CodecError::EncryptionFailure),
    }
}

/// Encodes `plaintext` into a container: draws a fresh random nonce,
/// encrypts the UTF-8 bytes of the text under the effective key and lays
/// the result out in the current format.
///
/// Empty `key_material` selects the default key. A failure that the
/// inputs owe is always reported; beyond those, the call fails with
/// `EncryptionFailure` when the operating system gives no random bytes.
pub fn encode(plaintext: &str, key_material: &[u8], key_label: &str) -> (r: Result<
    Vec<u8>,
    CodecError,
>)
    ensures
        encoding_failure(plaintext@, key_material@, key_label@) matches Some(failure) ==> (r matches Err(e) && e@ == failure),
        r matches Ok(container) ==> encodes(container@, plaintext@, key_material@, key_label@),
        r matches Err(e) ==> e@ == Failure::EncryptionFailure || encoding_failure(
            plaintext@,
            key_material@,
            key_label@,
        ) == Some(e@),
{
    if resolve_key(key_material).is_none() {
        return Err(CodecError::InvalidKeyLength);
    }
    if key_label.as_bytes().len() > MAX_LABEL_LEN {
        return Err(CodecError::LabelTooLong);
    }
    if plaintext.as_bytes().len() as u64 > MAX_PLAINTEXT_LEN {
        return Err(CodecError::EncryptionFailure);
    }
    match os_random(NONCE_LEN) {
        Some(bytes) => {
            let nonce = nonce_at(bytes.as_slice(), 0);
            encode_with_nonce(plaintext, key_material, key_label, &nonce)
        },
        None => Err(CodecError::EncryptionFailure),
    }
}

/// Finishes a decode once the cipher has answered.
pub fn text_from_opened(opened: Option<Vec<u8>>, key_name: String) -> (r: Result<
    String,
    CodecError,
>)
    ensures
        match r {
            Ok(text) => opened_text(
                match opened {
                    Some(plaintext) => Some(plaintext@),
                    None => None,
                },
                key_name@,
            ) == Ok::<Seq<char>, Failure>(text@),
            Err(e) => opened_text(
                match opened {
                    Some(plaintext) => Some(plaintext@),
                    None => None,
                },
                key_name@,
            ) == Err::<Seq<char>, Failure>(e@),
        },
{
    match opened {
        None => Err(CodecError::DecryptionFailure { key_name }),
        Some(plaintext) => match text_of(plaintext) {
            Some(text) => Ok(text),
            None => Err(CodecError::InvalidEncoding),
        },
    }
}

/// Decodes a container into its text. A current container is decrypted
/// with the effective key of `key_material`, a legacy container with
/// the default key whatever `key_material` holds.
pub fn decode(data: &[u8], key_material: &[u8]) -> (r: Result<String, CodecError>)
    ensures
        match r {
            Ok(text) => decoding(data@, key_material@) == Ok::<Seq<char>, Failure>(text@),
            Err(e) => decoding(data@, key_material@) == Err::<Seq<char>, Failure>(e@),
        },
{
    let frame = match parse_frame(data) {
        Ok(frame) => frame,
        Err(e) => {
            return Err(e);
        },
    };
    let header = match read_header(&frame) {
        Ok(header) => header,
        Err(e) => {
            return Err(e);
        },
    };
    let key = if frame.version == CURRENT_VERSION {
        match resolve_key(key_material) {
            Some(key) => key,
            None => {
                return Err(CodecError::InvalidKeyLength);
            },
        }
    } else {
        DEFAULT_KEY
    };
    text_from_opened(open(&key, &frame.nonce, frame.sealed), header.key_name)
}

} // verus!
