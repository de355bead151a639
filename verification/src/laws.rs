//! What holds of the codec as a whole, proved from the definitions of
//! framing, inspection, encoding and decoding.

use crate::aead::{aes256_gcm_open, aes256_gcm_seal, NONCE_LEN, TAG_LEN};
use crate::api::container_decoding;
use crate::codec::{decoding, decryption_key, encoded_with, encodes, opened_text};
use crate::error::Failure;
use crate::frame::{
    current_layout, framing, has_magic, layout_of, legacy_layout, FrameView, CURRENT_VERSION,
    LEGACY_VERSION, MAGIC, MAX_LABEL_LEN, MIN_CONTAINER_LEN,
};
use crate::header::{header_of, inspection, legacy_key_name, HeaderView};
use crate::key::{effective_key, DEFAULT_KEY};
use vstd::prelude::*;
use vstd::utf8::*;

verus! {

/// A container in the current layout is taken apart into the parts it
/// was laid out from.
pub proof fn framing_of_current_layout(label: Seq<u8>, nonce: Seq<u8>, sealed: Seq<u8>)
    requires
        label.len() <= MAX_LABEL_LEN,
        nonce.len() == NONCE_LEN,
    ensures
        framing(current_layout(label, nonce, sealed)) == Ok::<FrameView, Failure>(
            FrameView { version: CURRENT_VERSION, label, nonce, sealed },
        ),
{
    let bytes = current_layout(label, nonce, sealed);
    assert(bytes.subrange(0, 4) =~= MAGIC@);
    let label_end: int = 6 + label.len() as int;
    assert(bytes.subrange(6, label_end) =~= label);
    assert(bytes.subrange(label_end, label_end + NONCE_LEN) =~= nonce);
    assert(bytes.subrange(label_end + NONCE_LEN, bytes.len() as int) =~= sealed);
}

/// A container in the legacy layout is taken apart into its nonce and
/// its sealed payload, unless the nonce starts with the byte `0x02`, which
/// the parser reads as the version byte of the current layout.
pub proof fn framing_of_legacy_layout(nonce: Seq<u8>, sealed: Seq<u8>)
    requires
        nonce.len() == NONCE_LEN,
        nonce[0] != CURRENT_VERSION,
    ensures
        framing(legacy_layout(nonce, sealed)) == Ok::<FrameView, Failure>(
            FrameView { version: LEGACY_VERSION, label: Seq::empty(), nonce, sealed },
        ),
{
    let bytes = legacy_layout(nonce, sealed);
    assert(bytes.subrange(0, 4) =~= MAGIC@);
    assert(bytes.subrange(4, 16) =~= nonce);
    assert(bytes.subrange(16, bytes.len() as int) =~= sealed);
}

/// Every input that the parser accepts is exactly the layout of the
/// frame it was taken apart into, and that frame is well formed.
pub proof fn layout_of_framing(bytes: Seq<u8>)
    requires
        framing(bytes) is Ok,
    ensures
        layout_of(framing(bytes)->Ok_0) == bytes,
        framing(bytes)->Ok_0.nonce.len() == NONCE_LEN,
        framing(bytes)->Ok_0.label.len() <= MAX_LABEL_LEN,
        framing(bytes)->Ok_0.version == CURRENT_VERSION || framing(bytes)->Ok_0.version
            == LEGACY_VERSION,
        bytes.len() == if framing(bytes)->Ok_0.version == CURRENT_VERSION {
            6 + framing(bytes)->Ok_0.label.len() + NONCE_LEN + framing(bytes)->Ok_0.sealed.len()
        } else {
            4 + NONCE_LEN + framing(bytes)->Ok_0.sealed.len()
        },
{
    assert(forall|i: int| 0 <= i < 4 ==> bytes[i] == MAGIC@[i]);
}

/// Decoding undoes encoding: a container that encodes a text under
/// some key material and label decodes, with the same key material, to
/// that text.
///
/// Proved here: that the parser finds the label, the nonce and the
/// sealed bytes where the encoder put them, that both sides pick the same
/// key, and that label and text survive their way through UTF-8. That
/// the cipher opens what it has sealed is part of `encodes`; `encode`
/// has it from the cipher itself.
pub proof fn round_trip(
    container: Seq<u8>,
    text: Seq<char>,
    material: Seq<u8>,
    label: Seq<char>,
)
    requires
        encodes(container, text, material, label),
    ensures
        decoding(container, material) == Ok::<Seq<char>, Failure>(text),
{
    let nonce = choose|nonce: Seq<u8>| encoded_with(container, text, material, label, nonce);
    let sealed = aes256_gcm_seal(effective_key(material)->0, nonce, encode_utf8(text));
    decoding_of_current_layout(label, nonce, sealed, material);
    encode_utf8_valid_utf8(text);
    encode_utf8_decode_utf8(text);
}

/// An encoded container is as long as its six header bytes, its label,
/// its nonce, the UTF-8 bytes of the text and the tag together.
pub proof fn encoded_length(
    container: Seq<u8>,
    text: Seq<char>,
    material: Seq<u8>,
    label: Seq<char>,
)
    requires
        encodes(container, text, material, label),
    ensures
        container.len() == 6 + encode_utf8(label).len() + NONCE_LEN + encode_utf8(text).len()
            + TAG_LEN,
{
}

/// The header of an encoded container reports the current version and
/// the label that was given to the encoder.
pub proof fn encoded_header(
    container: Seq<u8>,
    text: Seq<char>,
    material: Seq<u8>,
    label: Seq<char>,
)
    requires
        encodes(container, text, material, label),
    ensures
        inspection(container) == Ok::<HeaderView, Failure>(
            HeaderView { version: CURRENT_VERSION, key_name: label },
        ),
{
    let nonce = choose|nonce: Seq<u8>| encoded_with(container, text, material, label, nonce);
    framing_of_current_layout(
        encode_utf8(label),
        nonce,
        aes256_gcm_seal(effective_key(material)->0, nonce, encode_utf8(text)),
    );
    encode_utf8_valid_utf8(label);
    encode_utf8_decode_utf8(label);
}

/// What decoding does with any container in the current layout,
/// whatever its sealed part holds and whatever key material is offered:
/// the header is accepted, and after the key material has been judged
/// the outcome is the cipher's answer for the effective key, the stored
/// nonce and the sealed part. A change to the sealed part, or another
/// key, therefore fails exactly when the cipher refuses to authenticate.
pub proof fn decoding_of_current_layout(
    label: Seq<char>,
    nonce: Seq<u8>,
    sealed: Seq<u8>,
    material: Seq<u8>,
)
    requires
        encode_utf8(label).len() <= MAX_LABEL_LEN,
        nonce.len() == NONCE_LEN,
    ensures
        inspection(current_layout(encode_utf8(label), nonce, sealed)) == Ok::<
            HeaderView,
            Failure,
        >(HeaderView { version: CURRENT_VERSION, key_name: label }),
        decoding(current_layout(encode_utf8(label), nonce, sealed), material) == match effective_key(
            material,
        ) {
            None => Err::<Seq<char>, Failure>(Failure::InvalidKeyLength),
            Some(key) => opened_text(aes256_gcm_open(key, nonce, sealed), label),
        },
{
    framing_of_current_layout(encode_utf8(label), nonce, sealed);
    encode_utf8_valid_utf8(label);
    encode_utf8_decode_utf8(label);
}

/// Where the nonce starts in a current container with this label.
pub open spec fn nonce_start(label: Seq<char>) -> int {
    6 + encode_utf8(label).len() as int
}

/// Where the ciphertext starts in a current container with this label.
pub open spec fn ciphertext_start(label: Seq<char>) -> int {
    nonce_start(label) + NONCE_LEN
}

/// What decoding does with an encoded container after any change behind
/// its nonce, and with any key material: the header still reads as
/// before, and once the key material has been judged the outcome is the
/// cipher's answer for the effective key, the untouched nonce and the
/// bytes now found behind it. So a flipped ciphertext bit or another key
/// gives a decryption failure exactly when the cipher refuses to
/// authenticate; that it always refuses rests on the strength of
/// AES-GCM and is not proved here.
pub proof fn decoding_of_altered_container(
    container: Seq<u8>,
    text: Seq<char>,
    material: Seq<u8>,
    label: Seq<char>,
    altered: Seq<u8>,
    other: Seq<u8>,
)
    requires
        encodes(container, text, material, label),
        altered.len() == container.len(),
        forall|i: int| 0 <= i < ciphertext_start(label) ==> altered[i] == container[i],
    ensures
        inspection(altered) == inspection(container),
        inspection(altered) == Ok::<HeaderView, Failure>(
            HeaderView { version: CURRENT_VERSION, key_name: label },
        ),
        decoding(altered, other) == match effective_key(other) {
            None => Err::<Seq<char>, Failure>(Failure::InvalidKeyLength),
            Some(key) => opened_text(
                aes256_gcm_open(
                    key,
                    container.subrange(nonce_start(label), ciphertext_start(label)),
                    altered.subrange(ciphertext_start(label), altered.len() as int),
                ),
                label,
            ),
        },
{
    let nonce = choose|nonce: Seq<u8>| encoded_with(container, text, material, label, nonce);
    let sealed = aes256_gcm_seal(effective_key(material)->0, nonce, encode_utf8(text));
    let label_bytes = encode_utf8(label);
    let start = ciphertext_start(label);
    let tail = altered.subrange(start, altered.len() as int);
    framing_of_current_layout(label_bytes, nonce, sealed);
    assert(altered =~= current_layout(label_bytes, nonce, tail));
    decoding_of_current_layout(label, nonce, tail, other);
    encoded_header(container, text, material, label);
}

/// Two encodings of the same inputs that were made with different
/// nonces are different byte sequences.
pub proof fn distinct_nonces_give_distinct_containers(
    first: Seq<u8>,
    second: Seq<u8>,
    text: Seq<char>,
    material: Seq<u8>,
    label: Seq<char>,
    first_nonce: Seq<u8>,
    second_nonce: Seq<u8>,
)
    requires
        encoded_with(first, text, material, label, first_nonce),
        encoded_with(second, text, material, label, second_nonce),
        first_nonce != second_nonce,
    ensures
        first != second,
{
    let key = effective_key(material)->0;
    let plaintext = encode_utf8(text);
    framing_of_current_layout(
        encode_utf8(label),
        first_nonce,
        aes256_gcm_seal(key, first_nonce, plaintext),
    );
    framing_of_current_layout(
        encode_utf8(label),
        second_nonce,
        aes256_gcm_seal(key, second_nonce, plaintext),
    );
}

/// A legacy container decodes to the same result whatever key material
/// the caller passes, be it another key or one of a wrong length.
pub proof fn legacy_ignores_key_material(bytes: Seq<u8>, first: Seq<u8>, second: Seq<u8>)
    requires
        has_magic(bytes),
        bytes.len() >= MIN_CONTAINER_LEN,
        bytes[4] != CURRENT_VERSION,
    ensures
        decoding(bytes, first) == decoding(bytes, second),
        decoding(bytes, first) == opened_text(
            aes256_gcm_open(DEFAULT_KEY@, bytes.subrange(4, 16), bytes.subrange(16, bytes.len() as int)),
            legacy_key_name(),
        ),
{
}

/// The same holds of key text: a legacy container decodes alike
/// whatever the text says, hexadecimal or not.
pub proof fn legacy_ignores_key_text(bytes: Seq<u8>, first: Seq<char>, second: Seq<char>)
    requires
        has_magic(bytes),
        bytes.len() >= MIN_CONTAINER_LEN,
        bytes[4] != CURRENT_VERSION,
    ensures
        container_decoding(bytes, first) == container_decoding(bytes, second),
{
}

/// A text sealed under the default key and laid out in the legacy
/// format decodes to that text whatever key material the caller passes.
/// A nonce that starts with the byte `0x02` is left out: such a
/// container is read as one in the current layout.
pub proof fn legacy_round_trip(
    nonce: Seq<u8>,
    sealed: Seq<u8>,
    text: Seq<char>,
    material: Seq<u8>,
)
    requires
        nonce.len() == NONCE_LEN,
        nonce[0] != CURRENT_VERSION,
        aes256_gcm_open(DEFAULT_KEY@, nonce, sealed) == Some(encode_utf8(text)),
    ensures
        decoding(legacy_layout(nonce, sealed), material) == Ok::<Seq<char>, Failure>(text),
        inspection(legacy_layout(nonce, sealed)) == Ok::<HeaderView, Failure>(
            HeaderView { version: LEGACY_VERSION, key_name: legacy_key_name() },
        ),
{
    framing_of_legacy_layout(nonce, sealed);
    encode_utf8_valid_utf8(text);
    encode_utf8_decode_utf8(text);
}

/// The number of leading bytes that inspection reads: the magic tag,
/// the byte that selects the layout and, in the current layout, the
/// length byte and the label.
pub open spec fn inspected_len(bytes: Seq<u8>) -> int {
    if bytes.len() < MIN_CONTAINER_LEN {
        bytes.len() as int
    } else if bytes[4] != CURRENT_VERSION {
        5
    } else if bytes.len() < 6 + bytes[5] + NONCE_LEN {
        6
    } else {
        6 + bytes[5]
    }
}

/// Inspection never reads the nonce or the ciphertext: two inputs of
/// the same length that agree on the bytes that inspection reads get
/// the same report, however they differ behind them.
pub proof fn inspection_reads_header_only(first: Seq<u8>, second: Seq<u8>)
    requires
        first.len() == second.len(),
        forall|i: int| 0 <= i < inspected_len(first) ==> first[i] == second[i],
    ensures
        inspection(first) == inspection(second),
{
    if first.len() >= 4 {
        assert(first.subrange(0, 4) =~= second.subrange(0, 4));
    }
    if has_magic(first) && first.len() >= MIN_CONTAINER_LEN && first[4] == CURRENT_VERSION {
        let end = 6 + first[5];
        if first.len() >= end + NONCE_LEN {
            assert(first.subrange(6, end) =~= second.subrange(6, end));
        }
    }
}

/// Inspection and decoding validate alike: what inspection rejects,
/// decoding rejects with the same failure, whatever the key material;
/// what inspection accepts, decoding does not reject for its magic tag,
/// its length or its label.
pub proof fn inspection_agrees_with_decoding(bytes: Seq<u8>, material: Seq<u8>)
    ensures
        inspection(bytes) matches Err(e) ==> decoding(bytes, material) == Err::<
            Seq<char>,
            Failure,
        >(e),
        inspection(bytes) is Ok ==> decoding(bytes, material) != Err::<Seq<char>, Failure>(
            Failure::NotAContainer,
        ) && decoding(bytes, material) != Err::<Seq<char>, Failure>(Failure::Truncated)
            && decoding(bytes, material) != Err::<Seq<char>, Failure>(Failure::InvalidLabel),
{
}

/// Inspection reports version 2 with the stored label, or version 1
/// with the name of the default key, and nothing else.
pub proof fn inspection_reports_a_known_version(bytes: Seq<u8>)
    requires
        inspection(bytes) is Ok,
    ensures
        inspection(bytes)->Ok_0.version == CURRENT_VERSION || inspection(bytes)->Ok_0
            == (HeaderView { version: LEGACY_VERSION, key_name: legacy_key_name() }),
        (inspection(bytes)->Ok_0.version == CURRENT_VERSION) == (bytes[4] == CURRENT_VERSION),
{
}

/// Decoding depends on the key material only through the effective
/// key: empty material and the 32 bytes of the default key decode alike.
pub proof fn decoding_depends_on_effective_key(bytes: Seq<u8>, first: Seq<u8>, second: Seq<u8>)
    requires
        effective_key(first) == effective_key(second),
    ensures
        decoding(bytes, first) == decoding(bytes, second),
{
}

} // verus!
