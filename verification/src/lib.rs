//! An encrypted, versioned container for text documents.
//!
//! A container holds a text sealed with AES-256-GCM under a 32-byte key,
//! behind a short header. Two layouts are read: the legacy one, which
//! always uses the embedded default key, and the current one, which
//! names its key by a label. Only the current layout is written.
//!
//! - [`codec`] encodes and decodes; [`header`] reads a header without
//!   decrypting; [`frame`] is the byte layout; [`key`] picks the key.
//! - [`api`] offers the same operations with keys as hexadecimal text
//!   ([`hex`]).
//! - [`laws`] proves what holds across these operations.
//! - [`aead`] and [`text`] hold the calls whose contracts are believed,
//!   not proved.
//! - [`documents`] tells which plain files count as text documents.

pub mod aead;
pub mod api;
pub mod codec;
pub mod documents;
pub mod error;
pub mod frame;
pub mod header;
pub mod hex;
pub mod key;
pub mod laws;
pub mod text;
