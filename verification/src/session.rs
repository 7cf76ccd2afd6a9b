//! The ledger session: the orchestration behind the set and get
//! operations.
//!
//! A session owns the tag index store. The signer and the key store are
//! outside collaborators: the caller hands in the signature bytes and
//! whatever the key store returned, and the session decides the rest —
//! it proves the work at the asked difficulty and only then appends the
//! message under its tag.

use vstd::prelude::*;

use crate::HashdError;
use crate::engine::{exhausted, pow_hash, search, search_ok};
use crate::gate::{sat_spec, MAX_DIFFICULTY};
use crate::store::{append_model, read_model, TagIndex};

verus! {

/// What decoding a byte sequence as text yields, named but not written
/// out: the outside decoder computes it, from the bytes alone.
pub uninterp spec fn utf8_decode(bytes: Seq<u8>) -> Option<Seq<char>>;

/// Relies on String::from_utf8: it succeeds exactly on valid UTF-8 and
/// the result depends on the bytes alone.
#[verifier::external_body]
fn decode_utf8(bytes: Vec<u8>) -> (r: Option<String>)
    ensures
        r is Some <==> utf8_decode(bytes@) is Some,
        r matches Some(s) ==> utf8_decode(bytes@) == Some(s@),
{
    String::from_utf8(bytes).ok()
}

/// The decision made on a key store lookup: an operation that needs a
/// signing key stops with `KeyNotFound` when the store holds none.
pub fn require_key(stored: Option<Vec<u8>>) -> (r: Result<Vec<u8>, HashdError>)
    ensures
        stored matches Some(k) ==> r == Ok::<Vec<u8>, HashdError>(k),
        stored is None ==> r == Err::<Vec<u8>, HashdError>(HashdError::KeyNotFound),
{
    match stored {
        Some(k) => Ok(k),
        None => Err(HashdError::KeyNotFound),
    }
}

/// One session over the tag index store.
pub struct LedgerSession {
    index: TagIndex,
}

impl View for LedgerSession {
    type V = Map<Seq<u8>, Seq<u8>>;

    closed spec fn view(&self) -> Map<Seq<u8>, Seq<u8>> {
        self.index@
    }
}

impl LedgerSession {
    /// A session over a store holding no tag at all.
    pub fn new() -> (r: LedgerSession)
        ensures
            r@ == Map::<Seq<u8>, Seq<u8>>::empty(),
    {
        LedgerSession { index: TagIndex::new() }
    }

    /// Proves work over `signature` at `difficulty` from nonce 0 and, on
    /// success, appends `message` under `tag`. On any failure the index
    /// is left unmodified. Difficulty 0 always succeeds.
    pub fn set(
        &mut self,
        signature: &[u8],
        message: &[u8],
        tag: &[u8],
        difficulty: usize,
    ) -> (r: Result<(Vec<u8>, u128), HashdError>)
        ensures
            r matches Ok(p) ==> search_ok(signature@, difficulty as int, 0, p.0@, p.1)
                && final(self)@ == append_model(old(self)@, tag@, message@),
            r is Err ==> final(self)@ == old(self)@,
            r == Err::<(Vec<u8>, u128), HashdError>(HashdError::InvalidDifficulty) <==> difficulty
                > MAX_DIFFICULTY,
            r == Err::<(Vec<u8>, u128), HashdError>(HashdError::NonceOverflow) <==> (difficulty
                <= MAX_DIFFICULTY && exhausted(signature@, difficulty as int, 0)),
            r is Err ==> (r == Err::<(Vec<u8>, u128), HashdError>(HashdError::InvalidDifficulty)
                || r == Err::<(Vec<u8>, u128), HashdError>(HashdError::NonceOverflow)),
            difficulty == 0 ==> r is Ok,
    {
        match search(signature, difficulty, 0) {
            Ok(found) => {
                self.index.append(tag, message);
                Ok(found)
            },
            Err(e) => {
                proof {
                    if difficulty == 0 {
                        assert(sat_spec(pow_hash(signature@, 0u128), 0));
                    }
                }
                Err(e)
            },
        }
    }

    /// The raw accumulated bytes under `tag`: every append in write
    /// order, or the empty sequence for a tag never written.
    pub fn get(&self, tag: &[u8]) -> (r: Vec<u8>)
        ensures
            r@ == read_model(self@, tag@),
    {
        self.index.read(tag)
    }

    /// The accumulated bytes under `tag`, decoded as text for display.
    /// Bytes that are not valid text are an `EncodingError` — a display
    /// concern, not a storage one: the bytes themselves stay intact.
    pub fn get_text(&self, tag: &[u8]) -> (r: Result<String, HashdError>)
        ensures
            r matches Ok(s) ==> utf8_decode(read_model(self@, tag@)) == Some(s@),
            r is Err <==> utf8_decode(read_model(self@, tag@)) is None,
            r is Err ==> r == Err::<String, HashdError>(HashdError::EncodingError),
    {
        let bytes = self.index.read(tag);
        match decode_utf8(bytes) {
            Some(s) => Ok(s),
            None => Err(HashdError::EncodingError),
        }
    }
}

} // verus!
