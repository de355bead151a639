//! The byte layout of a container, and the parser that takes one apart.
//!
//! ```text
//! legacy:  magic (4) | nonce (12) | ciphertext and tag
//! current: magic (4) | 0x02 | n (1) | key label (n) | nonce (12) | ciphertext and tag
//! ```

use crate::aead::NONCE_LEN;
use crate::error::{CodecError, Failure};
use vstd::prelude::*;
use vstd::slice::slice_subrange;

verus! {

/// The tag that every container starts with: the ASCII letters `VMDF`.
pub const MAGIC: [u8; 4] = [0x56, 0x4d, 0x44, 0x46];

/// Version number reported for a legacy container, which stores none.
pub const LEGACY_VERSION: u8 = 1;

/// Version byte of the current layout.
pub const CURRENT_VERSION: u8 = 2;

/// The shortest input that is looked at beyond its magic tag.
pub const MIN_CONTAINER_LEN: usize = 16;

/// The longest key label, in bytes, that the header can hold.
pub const MAX_LABEL_LEN: usize = 255;

/// The parts of a container, borrowed from its bytes.
pub struct Frame<'a> {
    /// 1 for the legacy layout, 2 for the current one.
    pub version: u8,
    /// The bytes of the key label; empty in the legacy layout.
    pub label: &'a [u8],
    /// The nonce.
    pub nonce: [u8; 12],
    /// The ciphertext followed by its tag.
    pub sealed: &'a [u8],
}

/// The parts of a container as sequences.
pub struct FrameView {
    pub version: u8,
    pub label: Seq<u8>,
    pub nonce: Seq<u8>,
    pub sealed: Seq<u8>,
}

impl<'a> View for Frame<'a> {
    type V = FrameView;

    open spec fn view(&self) -> FrameView {
        FrameView {
            version: self.version,
            label: self.label@,
            nonce: self.nonce@,
            sealed: self.sealed@,
        }
    }
}

/// The input starts with the magic tag.
pub open spec fn has_magic(bytes: Seq<u8>) -> bool {
    bytes.len() >= 4 && bytes.subrange(0, 4) == MAGIC@
}

/// The bytes of a container in the current layout.
pub open spec fn current_layout(label: Seq<u8>, nonce: Seq<u8>, sealed: Seq<u8>) -> Seq<u8> {
    MAGIC@ + seq![CURRENT_VERSION, label.len() as u8] + label + nonce + sealed
}

/// The bytes of a container in the legacy layout.
pub open spec fn legacy_layout(nonce: Seq<u8>, sealed: Seq<u8>) -> Seq<u8> {
    MAGIC@ + nonce + sealed
}

/// The bytes that a frame stands for.
pub open spec fn layout_of(frame: FrameView) -> Seq<u8> {
    if frame.version == CURRENT_VERSION {
        current_layout(frame.label, frame.nonce, frame.sealed)
    } else {
        legacy_layout(frame.nonce, frame.sealed)
    }
}

/// How an input is taken apart. The magic tag is tested first, then the
/// minimum length; byte 4 then selects the layout: `0x02` the current
/// one, any other value the legacy one.
pub open spec fn framing(bytes: Seq<u8>) -> Result<FrameView, Failure> {
    if !has_magic(bytes) {
        Err(Failure::NotAContainer)
    } else if bytes.len() < MIN_CONTAINER_LEN {
        Err(Failure::Truncated)
    } else if bytes[4] == CURRENT_VERSION {
        let label_end = 6 + bytes[5];
        if bytes.len() < label_end + NONCE_LEN {
            Err(Failure::Truncated)
        } else {
            Ok(
                FrameView {
                    version: CURRENT_VERSION,
                    label: bytes.subrange(6, label_end),
                    nonce: bytes.subrange(label_end, label_end + NONCE_LEN),
                    sealed: bytes.subrange(label_end + NONCE_LEN, bytes.len() as int),
                },
            )
        }
    } else {
        Ok(
            FrameView {
                version: LEGACY_VERSION,
                label: Seq::empty(),
                nonce: bytes.subrange(4, 16),
                sealed: bytes.subrange(16, bytes.len() as int),
            },
        )
    }
}

/// Tests the first four bytes against the magic tag.
pub fn starts_with_magic(data: &[u8]) -> (b: bool)
    ensures
        b == has_magic(data@),
{
    if data.len() < 4 {
        return false;
    }
    let b = data[0] == MAGIC[0] && data[1] == MAGIC[1] && data[2] == MAGIC[2] && data[3]
        == MAGIC[3];
    proof {
        if b {
            assert(data@.subrange(0, 4) =~= MAGIC@);
        }
    }
    b
}

/// Copies the twelve bytes that start at `start`.
pub(crate) fn nonce_at(data: &[u8], start: usize) -> (nonce: [u8; 12])
    requires
        start + 12 <= data@.len(),
    ensures
        nonce@ == data@.subrange(start as int, start + 12),
{
    let len: usize = data.len();
    let mut nonce: [u8; 12] = [0u8; 12];
    let mut i: usize = 0;
    while i < 12
        invariant
            i <= 12,
            start + 12 <= data@.len() == len,
            forall|j: int| 0 <= j < i ==> nonce@[j] == data@[start + j],
        decreases 12 - i,
    {
        nonce[i] = data[start + i];
        i = i + 1;
    }
    nonce
}

/// Takes a container apart without looking at what the label, the nonce
/// or the ciphertext hold.
pub fn parse_frame<'a>(data: &'a [u8]) -> (r: Result<Frame<'a>, CodecError>)
    ensures
        match r {
            Ok(frame) => framing(data@) == Ok::<FrameView, Failure>(frame@),
            Err(e) => framing(data@) == Err::<FrameView, Failure>(e@),
        },
{
    if !starts_with_magic(data) {
        return Err(CodecError::NotAContainer);
    }
    if data.len() < MIN_CONTAINER_LEN {
        return Err(CodecError::Truncated);
    }
    if data[4] == CURRENT_VERSION {
        let label_len: usize = data[5] as usize;
        let label_end: usize = 6 + label_len;
        if data.len() < label_end + NONCE_LEN {
            return Err(CodecError::Truncated);
        }
        let frame = Frame {
            version: CURRENT_VERSION,
            label: slice_subrange(data, 6, label_end),
            nonce: nonce_at(data, label_end),
            sealed: slice_subrange(data, label_end + NONCE_LEN, data.len()),
        };
        Ok(frame)
    } else {
        let frame = Frame {
            version: LEGACY_VERSION,
            label: slice_subrange(data, 0, 0),
            nonce: nonce_at(data, 4),
            sealed: slice_subrange(data, 16, data.len()),
        };
        assert(frame.label@ =~= Seq::<u8>::empty());
        Ok(frame)
    }
}

} // verus!
