//! The failures of the codec, and their mathematical counterpart.

use vstd::prelude::*;
use vstd::string::StringExecFns;

verus! {

/// Why an encode, decode or inspection call failed.
#[derive(Debug, PartialEq, Eq)]
pub enum CodecError {
    /// The input does not start with the magic tag.
    NotAContainer,
    /// The input is shorter than its header declares.
    Truncated,
    /// The key label stored in the header is not UTF-8.
    InvalidLabel,
    /// The key material is neither empty nor exactly 32 bytes long.
    InvalidKeyLength,
    /// The key string is not hexadecimal.
    InvalidKeyHex,
    /// The key label is longer than 255 bytes.
    LabelTooLong,
    /// The cipher refused to encrypt, or no nonce could be drawn.
    EncryptionFailure,
    /// Authentication failed: the key is wrong or the data was altered.
    /// The two causes cannot be told apart. `key_name` is the label found
    /// in the header; it is a hint for the user and proves nothing.
    DecryptionFailure { key_name: String },
    /// The decrypted bytes are not UTF-8.
    InvalidEncoding,
}

/// A failure as contracts speak of it: the label is a sequence of characters.
pub enum Failure {
    NotAContainer,
    Truncated,
    InvalidLabel,
    InvalidKeyLength,
    InvalidKeyHex,
    LabelTooLong,
    EncryptionFailure,
    DecryptionFailure { key_name: Seq<char> },
    InvalidEncoding,
}

impl View for CodecError {
    type V = Failure;

    open spec fn view(&self) -> Failure {
        match self {
            CodecError::NotAContainer => Failure::NotAContainer,
            CodecError::Truncated => Failure::Truncated,
            CodecError::InvalidLabel => Failure::InvalidLabel,
            CodecError::InvalidKeyLength => Failure::InvalidKeyLength,
            CodecError::InvalidKeyHex => Failure::InvalidKeyHex,
            CodecError::LabelTooLong => Failure::LabelTooLong,
            CodecError::EncryptionFailure => Failure::EncryptionFailure,
            CodecError::DecryptionFailure { key_name } => Failure::DecryptionFailure {
                key_name: key_name@,
            },
            CodecError::InvalidEncoding => Failure::InvalidEncoding,
        }
    }
}

/// The text that describes a failure to a user. A decryption failure
/// names the key label and gives both possible causes, since they
/// cannot be told apart.
pub open spec fn message_of(failure: Failure) -> Seq<char> {
    match failure {
        Failure::NotAContainer => "not an encrypted document: the magic tag is missing"@,
        Failure::Truncated => "the document is shorter than its header declares"@,
        Failure::InvalidLabel => "the key label in the header is not valid UTF-8"@,
        Failure::InvalidKeyLength => "the key must be exactly 32 bytes long"@,
        Failure::InvalidKeyHex => "the key is not written in hexadecimal digits"@,
        Failure::LabelTooLong => "the key label is longer than 255 bytes"@,
        Failure::EncryptionFailure => "the document could not be encrypted"@,
        Failure::DecryptionFailure { key_name } => "decryption failed for key \""@ + key_name
            + "\": wrong key or corrupted data"@,
        Failure::InvalidEncoding => "the decrypted document is not valid UTF-8"@,
    }
}

impl CodecError {
    /// Describes the failure in words.
    pub fn message(&self) -> (r: String)
        ensures
            r@ == message_of(self@),
    {
        match self {
            CodecError::NotAContainer => String::from_str(
                "not an encrypted document: the magic tag is missing",
            ),
            CodecError::Truncated => String::from_str(
                "the document is shorter than its header declares",
            ),
            CodecError::InvalidLabel => String::from_str(
                "the key label in the header is not valid UTF-8",
            ),
            CodecError::InvalidKeyLength => String::from_str(
                "the key must be exactly 32 bytes long",
            ),
            CodecError::InvalidKeyHex => String::from_str(
                "the key is not written in hexadecimal digits",
            ),
            CodecError::LabelTooLong => String::from_str("the key label is longer than 255 bytes"),
            CodecError::EncryptionFailure => String::from_str(
                "the document could not be encrypted",
            ),
            CodecError::DecryptionFailure { key_name } => {
                let mut text = String::from_str("decryption failed for key \"");
                text.append(key_name.as_str());
                text.append("\": wrong key or corrupted data");
                text
            },
            CodecError::InvalidEncoding => String::from_str(
                "the decrypted document is not valid UTF-8",
            ),
        }
    }
}

} // verus!
