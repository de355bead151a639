//! Hexadecimal text for key material.

use crate::text::text_of;
use vstd::pervasive::unreached;
use vstd::prelude::*;
use vstd::string::is_ascii_spec_bytes;
use vstd::utf8::*;

verus! {

/// The value of a hexadecimal digit, in either case; none for any other
/// character.
pub open spec fn digit_value(c: char) -> Option<u8> {
    if '0' <= c <= '9' {
        Some((c as u32 - 0x30) as u8)
    } else if 'a' <= c <= 'f' {
        Some((c as u32 - 0x61 + 10) as u8)
    } else if 'A' <= c <= 'F' {
        Some((c as u32 - 0x41 + 10) as u8)
    } else {
        None
    }
}

/// The lower-case hexadecimal digit of a value below 16.
pub open spec fn digit_of(value: u8) -> char {
    if value < 10 {
        (0x30 + value) as char
    } else {
        (0x61 + value - 10) as char
    }
}

/// The text consists of an even number of hexadecimal digits.
pub open spec fn is_hex(s: Seq<char>) -> bool {
    s.len() % 2 == 0 && forall|i: int| 0 <= i < s.len() ==> digit_value(#[trigger] s[i]) is Some
}

/// The bytes that a hexadecimal text stands for, two digits to a byte,
/// the high digit first; none if the text is not hexadecimal.
pub open spec fn hex_decoding(s: Seq<char>) -> Option<Seq<u8>> {
    if is_hex(s) {
        Some(
            Seq::new(
                s.len() / 2,
                |i: int| (digit_value(s[2 * i])->0 * 16 + digit_value(s[2 * i + 1])->0) as u8,
            ),
        )
    } else {
        None
    }
}

/// The lower-case hexadecimal text of a byte sequence.
pub open spec fn hex_encoding(bytes: Seq<u8>) -> Seq<char> {
    Seq::new(
        2 * bytes.len(),
        |i: int|
            if i % 2 == 0 {
                digit_of(bytes[i / 2] / 16)
            } else {
                digit_of(bytes[i / 2] % 16)
            },
    )
}

/// Decoding undoes encoding.
pub proof fn hex_round_trip(bytes: Seq<u8>)
    ensures
        hex_decoding(hex_encoding(bytes)) == Some(bytes),
{
    let s = hex_encoding(bytes);
    assert forall|v: u8| v < 16 implies digit_value(#[trigger] digit_of(v)) == Some(v) by {
        lemma_digit_of(v);
    }
    assert(is_hex(s));
    assert(hex_decoding(s)->0 =~= bytes);
}

/// A digit is an ASCII character that stands for its value.
proof fn lemma_digit_of(value: u8)
    requires
        value < 16,
    ensures
        digit_value(digit_of(value)) == Some(value),
        digit_of(value) as u32 == if value < 10 {
            0x30 + value
        } else {
            0x57 + value
        },
{
}

/// The value of a hexadecimal digit given as an ASCII byte.
fn nibble(b: u8) -> (r: Option<u8>)
    ensures
        r == digit_value(b as char),
        r matches Some(v) ==> v < 16,
{
    if b >= 0x30 && b <= 0x39 {
        Some(b - 0x30)
    } else if b >= 0x61 && b <= 0x66 {
        Some(b - 0x61 + 10)
    } else if b >= 0x41 && b <= 0x46 {
        Some(b - 0x41 + 10)
    } else {
        None
    }
}

/// The lower-case hexadecimal digit, as an ASCII byte, of a value below 16.
fn digit_byte(value: u8) -> (b: u8)
    requires
        value < 16,
    ensures
        b as char == digit_of(value),
        b < 128,
{
    proof {
        lemma_digit_of(value);
    }
    if value < 10 {
        0x30 + value
    } else {
        0x57 + value
    }
}

/// Reads hexadecimal text, in either case, into bytes.
pub fn decode_hex(s: &str) -> (r: Option<Vec<u8>>)
    ensures
        match r {
            Some(bytes) => hex_decoding(s@) == Some(bytes@),
            None => hex_decoding(s@) is None,
        },
{
    if !s.is_ascii() {
        return None;
    }
    let bytes = s.as_bytes();
    proof {
        is_ascii_spec_bytes(s);
        is_ascii_chars_nat_bound(s@);
        assert(forall|i: int| 0 <= i < s@.len() ==> (#[trigger] bytes@[i]) as char == s@[i]);
    }
    let len: usize = bytes.len();
    if len % 2 != 0 {
        return None;
    }
    let mut out: Vec<u8> = Vec::new();
    let mut i: usize = 0;
    while i < len
        invariant
            len == bytes@.len() == s@.len(),
            len % 2 == 0,
            i % 2 == 0,
            i <= len,
            out@.len() == i / 2,
            forall|j: int| 0 <= j < s@.len() ==> (#[trigger] bytes@[j]) as char == s@[j],
            forall|j: int| 0 <= j < i ==> digit_value(#[trigger] s@[j]) is Some,
            forall|k: int|
                0 <= k < i / 2 ==> #[trigger] out@[k] == (digit_value(s@[2 * k])->0 * 16
                    + digit_value(s@[2 * k + 1])->0) as u8,
        decreases len - i,
    {
        let high = nibble(bytes[i]);
        let low = nibble(bytes[i + 1]);
        match (high, low) {
            (Some(h), Some(l)) => {
                out.push(h * 16 + l);
            },
            _ => {
                return None;
            },
        }
        i = i + 2;
    }
    Some(out)
}

/// Writes bytes as lower-case hexadecimal text.
pub fn encode_hex(bytes: &[u8]) -> (r: String)
    ensures
        r@ == hex_encoding(bytes@),
{
    let mut ascii: Vec<u8> = Vec::new();
    let mut i: usize = 0;
    while i < bytes.len()
        invariant
            i <= bytes@.len(),
            ascii@.len() == 2 * i,
            forall|j: int|
                0 <= j < 2 * i ==> (#[trigger] ascii@[j]) < 128 && ascii@[j] as char
                    == hex_encoding(bytes@)[j],
        decreases bytes@.len() - i,
    {
        let b = bytes[i];
        ascii.push(digit_byte(b / 16));
        ascii.push(digit_byte(b % 16));
        i = i + 1;
    }
    proof {
        let chars = hex_encoding(bytes@);
        assert(is_ascii_chars(chars));
        is_ascii_chars_encode_utf8(chars);
        assert(ascii@ =~= encode_utf8(chars));
        encode_utf8_valid_utf8(chars);
        encode_utf8_decode_utf8(chars);
    }
    match text_of(ascii) {
        Some(text) => text,
        None => unreached(),
    }
}

} // verus!
