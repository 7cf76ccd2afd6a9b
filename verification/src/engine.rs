//! The nonce search engine.
//!
//! Starting from a caller-chosen nonce, the engine hashes
//! `signature ++ le16(nonce)` and increments the nonce until the digest
//! clears the requested difficulty. Run single-threaded from a start
//! nonce, the reported nonce is the smallest satisfying one at or above
//! it. A sweep repeats the search for every difficulty up to a maximum,
//! resuming each level from the nonce at which the previous one
//! succeeded — a warm start, not a correctness requirement.

use vstd::prelude::*;

use crate::HashdError;
use crate::codec::{le16, le16_spec};
use crate::digest::{sha256, sha256_of};
use crate::gate::{sat_spec, satisfies, MAX_DIFFICULTY};

verus! {

/// The bytes the engine feeds to the digest for a given nonce.
pub open spec fn pow_input(sig: Seq<u8>, nonce: u128) -> Seq<u8> {
    sig + le16_spec(nonce)
}

/// The digest of `signature ++ le16(nonce)`.
pub open spec fn pow_hash(sig: Seq<u8>, nonce: u128) -> Seq<u8> {
    sha256_of(pow_input(sig, nonce))
}

/// Recomputes the digest for a (signature, nonce) pair: the wire-level
/// hash a verifier of a reported proof-of-work result must reproduce.
pub fn pow_digest(signature: &[u8], nonce: u128) -> (r: Vec<u8>)
    ensures
        r@ == pow_hash(signature@, nonce),
        r@.len() == 32,
{
    let encoded = le16(nonce);
    let mut data = vstd::slice::slice_to_vec(signature);
    let mut tail = encoded;
    data.append(&mut tail);
    assert(data@ == pow_input(signature@, nonce));
    sha256(data.as_slice())
}

/// No nonce from `start` to the end of the 128-bit range has a digest
/// clearing difficulty `d`: the search space is exhausted.
pub open spec fn exhausted(sig: Seq<u8>, d: int, start: u128) -> bool {
    forall|m: u128| m >= start ==> !sat_spec(pow_hash(sig, m), d)
}

/// What a successful search reports: the satisfying digest and the
/// nonce that produced it.
pub open spec fn search_ok(sig: Seq<u8>, d: int, start: u128, h: Seq<u8>, n: u128) -> bool {
    &&& n >= start
    &&& h == pow_hash(sig, n)
    &&& h.len() == 32
    &&& sat_spec(h, d)
    &&& forall|m: u128| start <= m < n ==> !sat_spec(pow_hash(sig, m), d)
}

/// Brute-forces the smallest nonce at or above `start_nonce` whose
/// digest clears `difficulty`. Rejects a difficulty beyond the digest's
/// bit length, and reports exhaustion rather than wrapping the counter.
pub fn search(signature: &[u8], difficulty: usize, start_nonce: u128) -> (r: Result<
    (Vec<u8>, u128),
    HashdError,
>)
    ensures
        r matches Ok(p) ==> search_ok(
            signature@,
            difficulty as int,
            start_nonce,
            p.0@,
            p.1,
        ),
        r == Err::<(Vec<u8>, u128), HashdError>(HashdError::InvalidDifficulty) <==> difficulty
            > MAX_DIFFICULTY,
        r == Err::<(Vec<u8>, u128), HashdError>(HashdError::NonceOverflow) <==> (difficulty
            <= MAX_DIFFICULTY && exhausted(signature@, difficulty as int, start_nonce)),
        r is Err ==> (r == Err::<(Vec<u8>, u128), HashdError>(HashdError::InvalidDifficulty) || r
            == Err::<(Vec<u8>, u128), HashdError>(HashdError::NonceOverflow)),
{
    if difficulty > MAX_DIFFICULTY {
        return Err(HashdError::InvalidDifficulty);
    }
    let mut nonce: u128 = start_nonce;
    loop
        invariant
            difficulty <= MAX_DIFFICULTY,
            nonce >= start_nonce,
            forall|m: u128|
                start_nonce <= m < nonce ==> !sat_spec(pow_hash(signature@, m), difficulty as int),
        decreases u128::MAX - nonce,
    {
        let hash = pow_digest(signature, nonce);
        if satisfies(hash.as_slice(), difficulty) {
            assert(sat_spec(pow_hash(signature@, nonce), difficulty as int));
            return Ok((hash, nonce));
        }
        if nonce == u128::MAX {
            assert forall|m: u128| m >= start_nonce implies !sat_spec(
                pow_hash(signature@, m),
                difficulty as int,
            ) by {
                if m < u128::MAX {
                } else {
                    assert(m == nonce);
                }
            }
            return Err(HashdError::NonceOverflow);
        }
        nonce = nonce + 1;
    }
}

/// One level of a difficulty sweep: the difficulty searched, the
/// satisfying digest and the nonce that produced it.
pub struct SweepEntry {
    pub difficulty: usize,
    pub hash: Vec<u8>,
    pub nonce: u128,
}

/// The nonce a sweep level resumes from: zero for the first level, the
/// previous level's satisfying nonce after that.
pub open spec fn sweep_start(entries: Seq<SweepEntry>, i: int) -> u128 {
    if i == 0 {
        0u128
    } else {
        entries[i - 1].nonce
    }
}

/// Level `i` of a sweep holds a search result for difficulty `i`,
/// resumed from the previous level's nonce.
pub open spec fn sweep_entry_ok(sig: Seq<u8>, entries: Seq<SweepEntry>, i: int) -> bool {
    &&& entries[i].difficulty == i
    &&& search_ok(sig, i, sweep_start(entries, i), entries[i].hash@, entries[i].nonce)
}

/// Searches every difficulty from 0 up to `max_difficulty` in order,
/// resuming each level from the nonce at which the previous level
/// succeeded.
pub fn sweep(signature: &[u8], max_difficulty: usize) -> (r: Result<Vec<SweepEntry>, HashdError>)
    ensures
        r matches Ok(entries) ==> {
            &&& entries@.len() == max_difficulty + 1
            &&& forall|i: int| 0 <= i <= max_difficulty ==> sweep_entry_ok(signature@, entries@, i)
        },
        r == Err::<Vec<SweepEntry>, HashdError>(HashdError::InvalidDifficulty) <==> max_difficulty
            > MAX_DIFFICULTY,
        r == Err::<Vec<SweepEntry>, HashdError>(HashdError::NonceOverflow) ==> exists|
            d: int,
            start: u128,
        | 0 <= d <= max_difficulty && exhausted(signature@, d, start),
        r is Err ==> (r == Err::<Vec<SweepEntry>, HashdError>(HashdError::InvalidDifficulty) || r
            == Err::<Vec<SweepEntry>, HashdError>(HashdError::NonceOverflow)),
{
    if max_difficulty > MAX_DIFFICULTY {
        return Err(HashdError::InvalidDifficulty);
    }
    let mut entries: Vec<SweepEntry> = Vec::new();
    let mut nonce: u128 = 0;
    let mut d: usize = 0;
    while d <= max_difficulty
        invariant
            max_difficulty <= MAX_DIFFICULTY,
            d <= max_difficulty + 1,
            entries@.len() == d,
            forall|i: int| 0 <= i < d ==> sweep_entry_ok(signature@, entries@, i),
            nonce == sweep_start(entries@, d as int),
        decreases max_difficulty + 1 - d,
    {
        match search(signature, d, nonce) {
            Ok(found) => {
                let ghost old_entries = entries@;
                let entry = SweepEntry { difficulty: d, hash: found.0, nonce: found.1 };
                nonce = entry.nonce;
                entries.push(entry);
                assert forall|i: int| 0 <= i < d + 1 implies sweep_entry_ok(
                    signature@,
                    entries@,
                    i,
                ) by {
                    if i < d {
                        assert(sweep_entry_ok(signature@, old_entries, i));
                        assert(sweep_start(entries@, i) == sweep_start(old_entries, i));
                    }
                }
                d = d + 1;
            },
            Err(e) => {
                proof {
                    if e == HashdError::NonceOverflow {
                        assert(exhausted(signature@, d as int, nonce));
                    }
                }
                return Err(e);
            },
        }
    }
    Ok(entries)
}

/// Checks a reported proof-of-work pair: cheap verification of what the
/// search found, from the same signature, nonce and difficulty.
pub fn verify_pow(signature: &[u8], nonce: u128, difficulty: usize) -> (r: Result<
    bool,
    HashdError,
>)
    ensures
        r matches Ok(b) ==> b == sat_spec(pow_hash(signature@, nonce), difficulty as int),
        r is Err <==> difficulty > MAX_DIFFICULTY,
        r is Err ==> r == Err::<bool, HashdError>(HashdError::InvalidDifficulty),
{
    if difficulty > MAX_DIFFICULTY {
        return Err(HashdError::InvalidDifficulty);
    }
    let hash = pow_digest(signature, nonce);
    Ok(satisfies(hash.as_slice(), difficulty))
}

} // verus!
