//! The digest primitive behind the proof-of-work search.
//!
//! The engine treats the digest as an opaque 32-byte function of its
//! input bytes; everything the library proves about a hash goes through
//! the name `sha256_of`.

use vstd::prelude::*;

verus! {

/// The SHA-256 digest of a byte sequence, named but not written out:
/// the outside primitive computes it.
pub uninterp spec fn sha256_of(data: Seq<u8>) -> Seq<u8>;

/// Relies on ring::digest::digest with the SHA256 algorithm: a 32-byte
/// digest determined by the input bytes alone.
#[verifier::external_body]
pub(crate) fn sha256(data: &[u8]) -> (r: Vec<u8>)
    ensures
        r@ == sha256_of(data@),
        r@.len() == 32,
{
    ring::digest::digest(&ring::digest::SHA256, data).as_ref().to_vec()
}

} // verus!
