use aes_gcm::aead::{Aead, KeyInit};
use aes_gcm::{Aes256Gcm, Key, Nonce};
use vmd_codec::api::decode_container;
use vmd_codec::codec::decode;
use vmd_codec::error::CodecError;
use vmd_codec::header::{inspect_container_header, ContainerHeader};
use vmd_codec::key::{resolve_key, DEFAULT_KEY};

const NONCE: [u8; 12] = [0xa0, 1, 2, 3, 4, 5, 6, 7, 8, 9, 10, 11];

fn legacy_container(nonce: &[u8; 12], text: &str) -> Vec<u8> {
    let cipher = Aes256Gcm::new(Key::<Aes256Gcm>::from_slice(&DEFAULT_KEY));
    let sealed = cipher.encrypt(Nonce::from_slice(nonce), text.as_bytes()).unwrap();
    let mut data = Vec::new();
    data.extend_from_slice(b"VMDF");
    data.extend_from_slice(nonce);
    data.extend_from_slice(&sealed);
    data
}

#[test]
fn legacy_container_decodes_with_empty_key() {
    let data = legacy_container(&NONCE, "old document");
    assert_eq!(decode(&data, &[]), Ok("old document".to_string()));
}

#[test]
fn legacy_container_decodes_whatever_key_is_passed() {
    let data = legacy_container(&NONCE, "old document");
    assert_eq!(decode(&data, &[0x55; 32]), Ok("old document".to_string()));
    assert_eq!(decode(&data, &[1, 2, 3]), Ok("old document".to_string()));
    assert_eq!(decode(&data, &DEFAULT_KEY), Ok("old document".to_string()));
}

#[test]
fn legacy_container_decodes_whatever_key_text_is_passed() {
    let data = legacy_container(&NONCE, "old document");
    assert_eq!(decode_container(&data, ""), Ok("old document".to_string()));
    assert_eq!(decode_container(&data, &"5a".repeat(32)), Ok("old document".to_string()));
    assert_eq!(decode_container(&data, "00ff"), Ok("old document".to_string()));
    assert_eq!(decode_container(&data, "not hex"), Ok("old document".to_string()));
}

#[test]
fn legacy_container_reports_version_one_and_default_key() {
    let data = legacy_container(&NONCE, "old document");
    assert_eq!(
        inspect_container_header(&data),
        Ok(ContainerHeader { version: 1, key_name: "default".to_string() })
    );
}

#[test]
fn legacy_container_of_minimum_length_is_inspected_but_not_decrypted() {
    let mut data = Vec::new();
    data.extend_from_slice(b"VMDF");
    data.extend_from_slice(&NONCE);
    assert_eq!(data.len(), 16);
    assert_eq!(inspect_container_header(&data).unwrap().version, 1);
    assert_eq!(
        decode(&data, &[]),
        Err(CodecError::DecryptionFailure { key_name: "default".to_string() })
    );
}

#[test]
fn legacy_container_with_altered_ciphertext_fails() {
    let mut data = legacy_container(&NONCE, "old document");
    data[20] ^= 0x01;
    assert_eq!(
        decode(&data, &[]),
        Err(CodecError::DecryptionFailure { key_name: "default".to_string() })
    );
    assert_eq!(inspect_container_header(&data).unwrap().version, 1);
}

#[test]
fn legacy_container_of_empty_text_decodes() {
    let data = legacy_container(&NONCE, "");
    assert_eq!(data.len(), 32);
    assert_eq!(decode(&data, &[9; 32]), Ok(String::new()));
}

#[test]
fn legacy_nonce_that_starts_with_the_version_byte_is_read_as_current() {
    let nonce: [u8; 12] = [0x02, 0, 2, 3, 4, 5, 6, 7, 8, 9, 10, 11];
    let data = legacy_container(&nonce, "old document");
    assert_eq!(
        inspect_container_header(&data),
        Ok(ContainerHeader { version: 2, key_name: String::new() })
    );
    assert_eq!(
        decode(&data, &[]),
        Err(CodecError::DecryptionFailure { key_name: String::new() })
    );
}

#[test]
fn any_other_byte_four_selects_the_legacy_layout() {
    for first in [0x00u8, 0x01, 0x03, 0x7f, 0xff] {
        let mut nonce = NONCE;
        nonce[0] = first;
        let data = legacy_container(&nonce, "old document");
        assert_eq!(inspect_container_header(&data).unwrap().version, 1);
        assert_eq!(decode(&data, &[0x55; 32]), Ok("old document".to_string()));
    }
}

#[test]
fn resolve_key_picks_the_effective_key() {
    assert_eq!(resolve_key(&[]), Some(DEFAULT_KEY));
    assert_eq!(resolve_key(&[7; 32]), Some([7; 32]));
    assert_eq!(resolve_key(&[7; 31]), None);
    assert_eq!(resolve_key(&[7; 33]), None);
    assert_eq!(resolve_key(&[7]), None);
}
