//! A proof-of-work search engine paired with a tag-indexed append store.
//!
//! The engine brute-forces a nonce so that the digest of
//! `signature ++ le16(nonce)` starts with a required number of zero bits;
//! the store accumulates message bytes under string tags, never
//! overwriting earlier appends.

use vstd::prelude::*;

pub mod codec;
pub mod digest;
pub mod engine;
pub mod gate;
pub mod session;
pub mod store;

verus! {

/// The failures an operation can surface to its caller.
#[derive(Clone, Copy, Debug, PartialEq, Eq, Structural)]
pub enum HashdError {
    /// An operation needed a signing key that the key store does not hold.
    KeyNotFound,
    /// A requested difficulty exceeds the digest's bit length.
    InvalidDifficulty,
    /// The 128-bit nonce counter was exhausted without a hit.
    NonceOverflow,
    /// Stored tag bytes are not valid text when decoded for display.
    EncodingError,
}

} // verus!
