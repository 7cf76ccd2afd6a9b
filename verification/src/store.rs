//! The tag index store: writes under one tag accumulate, never
//! overwrite.
//!
//! Each append is kept as a merge fragment; reading a tag folds the
//! concatenation merge over its fragments in write order. A tag's value
//! is therefore the concatenation of every byte sequence ever appended
//! under it, and a tag never written reads back as the empty sequence.

use vstd::prelude::*;

verus! {

/// What the value stored under `k` is in the model `m`: the accumulated
/// bytes, or the empty sequence for a tag never written.
pub open spec fn read_model(m: Map<Seq<u8>, Seq<u8>>, k: Seq<u8>) -> Seq<u8> {
    if m.dom().contains(k) {
        m[k]
    } else {
        Seq::empty()
    }
}

/// What one append does to the model: the new bytes are concatenated
/// onto whatever the tag held, never replacing it.
pub open spec fn append_model(m: Map<Seq<u8>, Seq<u8>>, k: Seq<u8>, v: Seq<u8>) -> Map<
    Seq<u8>,
    Seq<u8>,
> {
    m.insert(k, read_model(m, k) + v)
}

/// The accumulated value for `k` over a log of merge fragments, in
/// write order.
pub open spec fn log_value(s: Seq<(Vec<u8>, Vec<u8>)>, k: Seq<u8>) -> Seq<u8>
    decreases s.len(),
{
    if s.len() == 0 {
        Seq::empty()
    } else {
        log_value(s.drop_last(), k) + if s.last().0@ == k {
            s.last().1@
        } else {
            Seq::empty()
        }
    }
}

/// Whether some fragment of the log was written under `k`.
pub open spec fn log_has_tag(s: Seq<(Vec<u8>, Vec<u8>)>, k: Seq<u8>) -> bool {
    exists|i: int| 0 <= i < s.len() && s[i].0@ == k
}

/// A log without a fragment for `k` accumulates nothing under `k`.
proof fn lemma_log_value_absent(s: Seq<(Vec<u8>, Vec<u8>)>, k: Seq<u8>)
    requires
        !log_has_tag(s, k),
    ensures
        log_value(s, k) == Seq::<u8>::empty(),
    decreases s.len(),
{
    if s.len() == 0 {
    } else {
        assert(!log_has_tag(s.drop_last(), k)) by {
            if log_has_tag(s.drop_last(), k) {
                let i = choose|i: int| 0 <= i < s.drop_last().len() && s.drop_last()[i].0@ == k;
                assert(s[i].0@ == k);
            }
        }
        lemma_log_value_absent(s.drop_last(), k);
        assert(s.last().0@ != k) by {
            if s.last().0@ == k {
                assert(s[s.len() - 1].0@ == k);
            }
        }
        assert(Seq::<u8>::empty() + Seq::<u8>::empty() =~= Seq::<u8>::empty());
    }
}

/// The concatenation merge the store folds over a tag's fragments: the
/// previous value, the empty sequence for a fresh tag, with the new
/// bytes appended after it.
pub fn concatenate_merge(_key: &[u8], old_value: Option<&[u8]>, merged_bytes: &[u8]) -> (r: Option<
    Vec<u8>,
>)
    ensures
        r matches Some(v) && v@ == (match old_value {
            Some(ov) => ov@,
            None => Seq::<u8>::empty(),
        }) + merged_bytes@,
{
    let mut ret: Vec<u8> = match old_value {
        Some(ov) => vstd::slice::slice_to_vec(ov),
        None => Vec::new(),
    };
    let mut tail = vstd::slice::slice_to_vec(merged_bytes);
    ret.append(&mut tail);
    Some(ret)
}

/// Byte-for-byte equality of two slices.
pub fn bytes_eq(a: &[u8], b: &[u8]) -> (r: bool)
    ensures
        r == (a@ == b@),
{
    if a.len() != b.len() {
        return false;
    }
    let mut i: usize = 0;
    while i < a.len()
        invariant
            i <= a@.len(),
            a@.len() == b@.len(),
            forall|j: int| 0 <= j < i ==> a@[j] == b@[j],
        decreases a@.len() - i,
    {
        if a[i] != b[i] {
            return false;
        }
        i += 1;
    }
    assert(a@ =~= b@);
    true
}

/// An embedded store whose writes to one tag accumulate in write order.
pub struct TagIndex {
    log: Vec<(Vec<u8>, Vec<u8>)>,
}

impl View for TagIndex {
    type V = Map<Seq<u8>, Seq<u8>>;

    closed spec fn view(&self) -> Map<Seq<u8>, Seq<u8>> {
        Map::new(|k: Seq<u8>| log_has_tag(self.log@, k), |k: Seq<u8>| log_value(self.log@, k))
    }
}

impl TagIndex {
    /// A fresh store holding no tag at all.
    pub fn new() -> (r: TagIndex)
        ensures
            r@ == Map::<Seq<u8>, Seq<u8>>::empty(),
    {
        let r = TagIndex { log: Vec::new() };
        assert(r@ =~= Map::<Seq<u8>, Seq<u8>>::empty());
        r
    }

    /// Concatenates `bytes` onto the value held under `tag` (the empty
    /// sequence if the tag is new) and keeps the result.
    pub fn append(&mut self, tag: &[u8], bytes: &[u8])
        ensures
            final(self)@ == append_model(old(self)@, tag@, bytes@),
    {
        let ghost s0 = self.log@;
        let entry = (vstd::slice::slice_to_vec(tag), vstd::slice::slice_to_vec(bytes));
        self.log.push(entry);
        proof {
            let s1 = self.log@;
            assert(s1.drop_last() =~= s0);
            assert forall|k: Seq<u8>| true implies log_value(s1, k) == log_value(s0, k) + (if k
                == tag@ {
                bytes@
            } else {
                Seq::<u8>::empty()
            }) by {
                assert(s1.last().0@ == tag@);
                assert(s1.last().1@ == bytes@);
            }
            assert forall|k: Seq<u8>| log_has_tag(s1, k) implies (log_has_tag(s0, k) || k
                == tag@) by {
                let i = choose|i: int| 0 <= i < s1.len() && s1[i].0@ == k;
                if i < s0.len() {
                    assert(s0[i].0@ == k);
                }
            }
            assert(log_has_tag(s1, tag@)) by {
                assert(s1[s1.len() - 1].0@ == tag@);
            }
            assert forall|k: Seq<u8>| log_has_tag(s0, k) implies log_has_tag(s1, k) by {
                let i = choose|i: int| 0 <= i < s0.len() && s0[i].0@ == k;
                assert(s1[i].0@ == k);
            }
            if !log_has_tag(s0, tag@) {
                lemma_log_value_absent(s0, tag@);
            }
            assert(log_value(s1, tag@) == read_model(old(self)@, tag@) + bytes@) by {
                assert(Seq::<u8>::empty() + bytes@ =~= bytes@);
            }
            assert forall|k: Seq<u8>| log_has_tag(s0, k) && k != tag@ implies log_value(s1, k)
                == old(self)@[k] by {
                assert(log_value(s0, k) + Seq::<u8>::empty() =~= log_value(s0, k));
            }
            assert(final(self)@ =~= append_model(old(self)@, tag@, bytes@));
        }
    }

    /// The accumulated value under `tag`: every append in write order,
    /// or the empty sequence for a tag never written. Never an error.
    pub fn read(&self, tag: &[u8]) -> (r: Vec<u8>)
        ensures
            r@ == read_model(self@, tag@),
    {
        let mut acc: Vec<u8> = Vec::new();
        let mut i: usize = 0;
        while i < self.log.len()
            invariant
                i <= self.log@.len(),
                acc@ == log_value(self.log@.take(i as int), tag@),
            decreases self.log@.len() - i,
        {
            let ghost prefix = self.log@.take(i as int);
            let entry = &self.log[i];
            if bytes_eq(entry.0.as_slice(), tag) {
                let merged = concatenate_merge(tag, Some(acc.as_slice()), entry.1.as_slice());
                acc = merged.unwrap();
            }
            proof {
                let next = self.log@.take(i + 1);
                assert(next.drop_last() =~= prefix);
                assert(next.last() == self.log@[i as int]);
                if self.log@[i as int].0@ != tag@ {
                    assert(log_value(prefix, tag@) + Seq::<u8>::empty() =~= log_value(
                        prefix,
                        tag@,
                    ));
                }
            }
            i += 1;
        }
        proof {
            assert(self.log@.take(self.log@.len() as int) =~= self.log@);
            if !log_has_tag(self.log@, tag@) {
                lemma_log_value_absent(self.log@, tag@);
            }
        }
        acc
    }
}

/// Starting from an empty store, appending `a` then `b` under one tag
/// accumulates exactly `a ++ b`, for any byte sequences including the
/// empty one.
pub proof fn lemma_append_accumulation(tag: Seq<u8>, a: Seq<u8>, b: Seq<u8>)
    ensures
        read_model(
            append_model(append_model(Map::<Seq<u8>, Seq<u8>>::empty(), tag, a), tag, b),
            tag,
        ) == a + b,
{
    let m0 = Map::<Seq<u8>, Seq<u8>>::empty();
    let m1 = append_model(m0, tag, a);
    assert(read_model(m1, tag) == Seq::<u8>::empty() + a);
    assert((Seq::<u8>::empty() + a) + b =~= a + b);
}

/// Appending the same bytes twice accumulates them twice: the store is
/// order-sensitive and never collapses duplicates.
pub proof fn lemma_append_not_duplicate_collapsing(tag: Seq<u8>, a: Seq<u8>)
    ensures
        read_model(
            append_model(append_model(Map::<Seq<u8>, Seq<u8>>::empty(), tag, a), tag, a),
            tag,
        ) == a + a,
{
    lemma_append_accumulation(tag, a, a);
}

/// A tag never written reads back as the empty sequence, not an error.
pub proof fn lemma_read_unwritten(m: Map<Seq<u8>, Seq<u8>>, tag: Seq<u8>)
    requires
        !m.dom().contains(tag),
    ensures
        read_model(m, tag) == Seq::<u8>::empty(),
{
}

} // verus!
