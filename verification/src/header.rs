//! Reading the header of a container without decrypting it.

use crate::error::{CodecError, Failure};
use crate::frame::{framing, parse_frame, Frame, FrameView, CURRENT_VERSION, LEGACY_VERSION};
use crate::text::text_of;
use vstd::prelude::*;
use vstd::slice::slice_to_vec;
use vstd::string::StringExecFns;
use vstd::utf8::*;

verus! {

/// What the header of a container says.
#[derive(Debug, PartialEq, Eq)]
pub struct ContainerHeader {
    /// 1 for a legacy container, 2 for a current one.
    pub version: u8,
    /// The label of the key that the container expects. It is advice for
    /// the user and is not authenticated.
    pub key_name: String,
}

/// A header as contracts speak of it.
pub struct HeaderView {
    pub version: u8,
    pub key_name: Seq<char>,
}

impl View for ContainerHeader {
    type V = HeaderView;

    open spec fn view(&self) -> HeaderView {
        HeaderView { version: self.version, key_name: self.key_name@ }
    }
}

/// The key name reported for a legacy container.
pub open spec fn legacy_key_name() -> Seq<char> {
    "default"@
}

/// The header that a frame carries: a current frame names its key in
/// UTF-8, a legacy frame always means the default key.
pub open spec fn header_of(frame: FrameView) -> Result<HeaderView, Failure> {
    if frame.version == CURRENT_VERSION {
        if valid_utf8(frame.label) {
            Ok(HeaderView { version: CURRENT_VERSION, key_name: decode_utf8(frame.label) })
        } else {
            Err(Failure::InvalidLabel)
        }
    } else {
        Ok(HeaderView { version: LEGACY_VERSION, key_name: legacy_key_name() })
    }
}

/// What inspection reports for an input.
pub open spec fn inspection(bytes: Seq<u8>) -> Result<HeaderView, Failure> {
    match framing(bytes) {
        Ok(frame) => header_of(frame),
        Err(e) => Err(e),
    }
}

/// Reads the header out of a frame.
pub fn read_header(frame: &Frame) -> (r: Result<ContainerHeader, CodecError>)
    ensures
        match r {
            Ok(header) => header_of(frame@) == Ok::<HeaderView, Failure>(header@),
            Err(e) => header_of(frame@) == Err::<HeaderView, Failure>(e@),
        },
{
    if frame.version == CURRENT_VERSION {
        match text_of(slice_to_vec(frame.label)) {
            Some(key_name) => Ok(ContainerHeader { version: CURRENT_VERSION, key_name }),
            None => Err(CodecError::InvalidLabel),
        }
    } else {
        Ok(ContainerHeader { version: LEGACY_VERSION, key_name: String::from_str("default") })
    }
}

/// Reports the version and the key label of a container. The input gets
/// the same magic and length checks as in decoding; the nonce and the
/// ciphertext are not read, and no key is involved.
pub fn inspect_container_header(data: &[u8]) -> (r: Result<ContainerHeader, CodecError>)
    ensures
        match r {
            Ok(header) => inspection(data@) == Ok::<HeaderView, Failure>(header@),
            Err(e) => inspection(data@) == Err::<HeaderView, Failure>(e@),
        },
{
    match parse_frame(data) {
        Ok(frame) => read_header(&frame),
        Err(e) => Err(e),
    }
}

} // verus!
