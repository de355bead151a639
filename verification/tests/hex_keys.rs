use vmd_codec::api::{generate_random_key, key_text_of};
use vmd_codec::hex::{decode_hex, encode_hex};

#[test]
fn hex_text_is_written_in_lower_case() {
    assert_eq!(encode_hex(&[]), "");
    assert_eq!(encode_hex(&[0x00]), "00");
    assert_eq!(encode_hex(&[0x0a, 0xf1, 0x9c, 0xff]), "0af19cff");
    assert_eq!(encode_hex(&[0x01, 0x23, 0x45, 0x67, 0x89, 0xab, 0xcd, 0xef]), "0123456789abcdef");
}

#[test]
fn hex_text_is_read_in_either_case() {
    assert_eq!(decode_hex(""), Some(vec![]));
    assert_eq!(decode_hex("00"), Some(vec![0x00]));
    assert_eq!(decode_hex("0aF1"), Some(vec![0x0a, 0xf1]));
    assert_eq!(
        decode_hex("0123456789abcdefABCDEF"),
        Some(vec![0x01, 0x23, 0x45, 0x67, 0x89, 0xab, 0xcd, 0xef, 0xab, 0xcd, 0xef])
    );
}

#[test]
fn hex_text_of_odd_length_is_refused() {
    assert_eq!(decode_hex("0"), None);
    assert_eq!(decode_hex("abc"), None);
}

#[test]
fn hex_text_with_other_characters_is_refused() {
    assert_eq!(decode_hex("0g"), None);
    assert_eq!(decode_hex("g0"), None);
    assert_eq!(decode_hex(" 0"), None);
    assert_eq!(decode_hex("0x"), None);
    assert_eq!(decode_hex("/0"), None);
    assert_eq!(decode_hex(":0"), None);
    assert_eq!(decode_hex("@0"), None);
    assert_eq!(decode_hex("G0"), None);
    assert_eq!(decode_hex("`0"), None);
    assert_eq!(decode_hex("é0"), None);
    assert_eq!(decode_hex("０１"), None);
}

#[test]
fn hex_round_trip_of_every_byte() {
    let bytes: Vec<u8> = (0..=255).collect();
    let text = encode_hex(&bytes);
    assert_eq!(text.len(), 512);
    assert_eq!(decode_hex(&text), Some(bytes.clone()));
    assert_eq!(decode_hex(&text.to_uppercase()), Some(bytes));
}

#[test]
fn generated_key_is_64_lower_case_hex_digits() {
    let key = generate_random_key().unwrap();
    assert_eq!(key.len(), 64);
    assert!(key.chars().all(|c| c.is_ascii_digit() || ('a'..='f').contains(&c)));
    assert_eq!(decode_hex(&key).unwrap().len(), 32);
}

#[test]
fn generated_keys_differ() {
    let first = generate_random_key().unwrap();
    let second = generate_random_key().unwrap();
    assert_ne!(first, second);
}

#[test]
fn drawn_bytes_become_key_text() {
    assert_eq!(key_text_of(None), None);
    assert_eq!(key_text_of(Some(vec![])), Some(String::new()));
    assert_eq!(key_text_of(Some(vec![0x00, 0x9f, 0xab])), Some("009fab".to_string()));
    let key = key_text_of(Some((0u8..32).collect())).unwrap();
    assert_eq!(key, "000102030405060708090a0b0c0d0e0f101112131415161718191a1b1c1d1e1f");
    assert_eq!(decode_hex(&key), Some((0u8..32).collect()));
}
