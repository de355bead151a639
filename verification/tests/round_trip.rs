use vmd_codec::api::{decode_container, encode_container, generate_random_key};
use vmd_codec::codec::{decode, encode, encode_with_nonce};
use vmd_codec::error::CodecError;
use vmd_codec::header::inspect_container_header;
use vmd_codec::key::DEFAULT_KEY;

const KEY_A: [u8; 32] = [0x11; 32];
const KEY_B: [u8; 32] = [0x22; 32];

#[test]
fn round_trip_with_default_key() {
    let text = "first line\nsecond line\n";
    let container = encode(text, &[], "default").unwrap();
    assert_eq!(decode(&container, &[]), Ok(text.to_string()));
}

#[test]
fn round_trip_with_supplied_key() {
    let text = "secret notes";
    let container = encode(text, &KEY_A, "work").unwrap();
    assert_eq!(decode(&container, &KEY_A), Ok(text.to_string()));
}

#[test]
fn round_trip_of_empty_text() {
    let container = encode("", &KEY_A, "").unwrap();
    assert_eq!(container.len(), 4 + 1 + 1 + 0 + 12 + 16);
    assert_eq!(decode(&container, &KEY_A), Ok(String::new()));
}

#[test]
fn round_trip_of_text_beyond_ascii() {
    let text = "파일 저장 – naïve café ☕ 𝄞";
    let label = "열쇠";
    let container = encode(text, &KEY_B, label).unwrap();
    assert_eq!(decode(&container, &KEY_B), Ok(text.to_string()));
    let header = inspect_container_header(&container).unwrap();
    assert_eq!(header.version, 2);
    assert_eq!(header.key_name, label);
}

#[test]
fn round_trip_with_longest_label() {
    let label = "k".repeat(255);
    let container = encode("text", &KEY_A, &label).unwrap();
    assert_eq!(container[5], 255);
    assert_eq!(inspect_container_header(&container).unwrap().key_name, label);
    assert_eq!(decode(&container, &KEY_A), Ok("text".to_string()));
}

#[test]
fn round_trip_through_hex_operations_with_generated_key() {
    let key_hex = generate_random_key().unwrap();
    let container = encode_container("generated", &key_hex, "mine").unwrap();
    assert_eq!(decode_container(&container, &key_hex), Ok("generated".to_string()));
    assert_eq!(
        decode_container(&container, &key_hex.to_uppercase()),
        Ok("generated".to_string())
    );
}

#[test]
fn container_length_is_header_nonce_text_and_tag() {
    let text = "twelve bytes";
    let container = encode(text, &KEY_A, "label").unwrap();
    assert_eq!(container.len(), 6 + 5 + 12 + text.len() + 16);
}

#[test]
fn empty_key_material_means_the_default_key() {
    let container = encode("shared", &[], "default").unwrap();
    assert_eq!(decode(&container, &DEFAULT_KEY), Ok("shared".to_string()));
    let container = encode("shared", &DEFAULT_KEY, "default").unwrap();
    assert_eq!(decode(&container, &[]), Ok("shared".to_string()));
}

#[test]
fn another_key_fails_to_decrypt() {
    let container = encode("secret", &KEY_A, "a").unwrap();
    assert_eq!(
        decode(&container, &KEY_B),
        Err(CodecError::DecryptionFailure { key_name: "a".to_string() })
    );
    assert_eq!(
        decode(&container, &[]),
        Err(CodecError::DecryptionFailure { key_name: "a".to_string() })
    );
}

#[test]
fn every_flipped_ciphertext_bit_is_detected() {
    let text = "tamper with me";
    let container = encode(text, &KEY_A, "label").unwrap();
    let ciphertext_start = 6 + 5 + 12;
    for index in ciphertext_start..container.len() {
        for bit in 0..8 {
            let mut tampered = container.clone();
            tampered[index] ^= 1 << bit;
            assert_eq!(
                decode(&tampered, &KEY_A),
                Err(CodecError::DecryptionFailure { key_name: "label".to_string() })
            );
        }
    }
}

#[test]
fn a_flipped_nonce_bit_is_detected() {
    let container = encode("text", &KEY_A, "label").unwrap();
    let mut tampered = container.clone();
    tampered[6 + 5] ^= 0x80;
    assert_eq!(
        decode(&tampered, &KEY_A),
        Err(CodecError::DecryptionFailure { key_name: "label".to_string() })
    );
}

#[test]
fn two_encodings_differ_in_nonce_and_ciphertext() {
    let first = encode("same text", &KEY_A, "label").unwrap();
    let second = encode("same text", &KEY_A, "label").unwrap();
    assert_ne!(first, second);
    let nonce = 6 + 5..6 + 5 + 12;
    assert_ne!(first[nonce.clone()], second[nonce.clone()]);
    assert_ne!(first[nonce.end..], second[nonce.end..]);
    assert_eq!(first[..nonce.start], second[..nonce.start]);
}

#[test]
fn a_given_nonce_gives_the_same_container_again() {
    let nonce = [7u8; 12];
    let first = encode_with_nonce("same text", &KEY_A, "label", &nonce).unwrap();
    let second = encode_with_nonce("same text", &KEY_A, "label", &nonce).unwrap();
    assert_eq!(first, second);
    let other = encode_with_nonce("same text", &KEY_A, "label", &[8u8; 12]).unwrap();
    assert_ne!(first, other);
    assert_eq!(decode(&other, &KEY_A), Ok("same text".to_string()));
}

#[test]
fn inspection_survives_a_corrupted_ciphertext() {
    let container = encode("text", &KEY_A, "label").unwrap();
    let expected = inspect_container_header(&container);
    let mut corrupted = container.clone();
    for byte in corrupted[6 + 5..].iter_mut() {
        *byte = !*byte;
    }
    assert_eq!(inspect_container_header(&corrupted), expected);
    assert_eq!(expected.unwrap().key_name, "label");
}
