//! Key material: the embedded default key and the rule that picks the
//! effective key for a call.

use vstd::prelude::*;

verus! {

/// Length of an encryption key in bytes (256 bits).
pub const KEY_LEN: usize = 32;

/// The embedded key that is used when a caller supplies no key material.
pub const DEFAULT_KEY: [u8; 32] = [
    0x56, 0x4d, 0x44, 0x2d, 0x64, 0x65, 0x66, 0x61,
    0x75, 0x6c, 0x74, 0x2d, 0x6b, 0x65, 0x79, 0x2d,
    0x32, 0x35, 0x36, 0x2d, 0x62, 0x69, 0x74, 0x2d,
    0x41, 0x45, 0x53, 0x2d, 0x47, 0x43, 0x4d, 0x21,
];

/// The key that a call works with: the default key for empty material,
/// the material itself when it has exactly 32 bytes, none otherwise.
pub open spec fn effective_key(material: Seq<u8>) -> Option<Seq<u8>> {
    if material.len() == 0 {
        Some(DEFAULT_KEY@)
    } else if material.len() == 32 {
        Some(material)
    } else {
        None
    }
}

/// Copies the 32 bytes of `material` into an array.
fn key_from_slice(material: &[u8]) -> (key: [u8; 32])
    requires
        material@.len() == 32,
    ensures
        key@ == material@,
{
    let mut key: [u8; 32] = [0u8; 32];
    let mut i: usize = 0;
    while i < 32
        invariant
            i <= 32,
            material@.len() == 32,
            forall|j: int| 0 <= j < i ==> key@[j] == material@[j],
        decreases 32 - i,
    {
        key[i] = material[i];
        i = i + 1;
    }
    key
}

/// Resolves the key material of a call to the key that is used.
pub fn resolve_key(material: &[u8]) -> (r: Option<[u8; 32]>)
    ensures
        match r {
            Some(key) => effective_key(material@) == Some(key@),
            None => effective_key(material@) is None,
        },
{
    if material.len() == 0 {
        Some(DEFAULT_KEY)
    } else if material.len() == 32 {
        Some(key_from_slice(material))
    } else {
        None
    }
}

} // verus!
