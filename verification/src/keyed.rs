//! An association from buffer keys to at most one value each, backed by a
//! vector of pairs with pairwise-distinct keys.
//!
//! Both the surface pool's front slots and the bridge's locked bindings are
//! instances of this structure, so its contracts are stated once, pointwise:
//! `slot(k)` gives the value held for `k`, and every operation says what it
//! does to `slot(k)` and that every other key's slot is untouched.

use vstd::prelude::*;

use crate::key::BufferKey;

verus! {

/// The value associated with `k` by the pair sequence `s`, taking the
/// latest binding where several occur.
pub open spec fn seq_slot<V>(s: Seq<(BufferKey, V)>, k: BufferKey) -> Option<V>
    decreases s.len(),
{
    if s.len() == 0 {
        None
    } else if s.last().0 == k {
        Some(s.last().1)
    } else {
        seq_slot(s.drop_last(), k)
    }
}

/// No key occurs twice in the pair sequence.
pub open spec fn unique_keys<V>(s: Seq<(BufferKey, V)>) -> bool {
    forall|i: int, j: int| 0 <= i < j < s.len() ==> s[i].0 != s[j].0
}

proof fn lemma_slot_found<V>(s: Seq<(BufferKey, V)>, i: int)
    requires
        unique_keys(s),
        0 <= i < s.len(),
    ensures
        seq_slot(s, s[i].0) == Some(s[i].1),
    decreases s.len(),
{
    if i == s.len() - 1 {
    } else {
        assert(s.last().0 != s[i].0);
        assert(s.drop_last()[i] == s[i]);
        lemma_slot_found(s.drop_last(), i);
    }
}

proof fn lemma_slot_absent<V>(s: Seq<(BufferKey, V)>, k: BufferKey)
    requires
        forall|i: int| 0 <= i < s.len() ==> s[i].0 != k,
    ensures
        seq_slot(s, k) is None,
    decreases s.len(),
{
    if s.len() > 0 {
        lemma_slot_absent(s.drop_last(), k);
    }
}

proof fn lemma_slot_remove<V>(s: Seq<(BufferKey, V)>, i: int, k: BufferKey)
    requires
        0 <= i < s.len(),
        s[i].0 != k,
    ensures
        seq_slot(s.remove(i), k) == seq_slot(s, k),
    decreases s.len(),
{
    if i == s.len() - 1 {
        assert(s.remove(i) =~= s.drop_last());
    } else {
        assert(s.remove(i).last() == s.last());
        assert(s.remove(i).drop_last() =~= s.drop_last().remove(i));
        lemma_slot_remove(s.drop_last(), i, k);
    }
}

/// A set of single-value slots keyed by `BufferKey`. A key with no pair in
/// the vector holds nothing; inserting moves a value in, removing moves it
/// out, so a held value is never duplicated.
pub struct KeyedSlots<V> {
    entries: Vec<(BufferKey, V)>,
}

impl<V> KeyedSlots<V> {
    /// The internal invariant: no key is bound twice.
    pub closed spec fn wf(&self) -> bool {
        unique_keys(self.entries@)
    }

    /// The value held for `k`, if any.
    pub closed spec fn slot(&self, k: BufferKey) -> Option<V> {
        seq_slot(self.entries@, k)
    }

    pub fn new() -> (r: Self)
        ensures
            r.wf(),
            forall|k: BufferKey| r.slot(k) is None,
    {
        let r = KeyedSlots { entries: Vec::new() };
        proof {
            assert forall|k: BufferKey| r.slot(k) is None by {
                lemma_slot_absent(r.entries@, k);
            }
        }
        r
    }

    fn find(&self, k: BufferKey) -> (r: Option<usize>)
        ensures
            match r {
                Some(i) => i < self.entries@.len() && self.entries@[i as int].0 == k,
                None => forall|i: int| 0 <= i < self.entries@.len() ==> self.entries@[i].0 != k,
            },
    {
        let n = self.entries.len();
        for i in 0..n
            invariant
                n == self.entries@.len(),
                forall|j: int| 0 <= j < i ==> self.entries@[j].0 != k,
        {
            if self.entries[i].0 == k {
                return Some(i);
            }
        }
        None
    }

    /// Whether `k` currently holds a value.
    pub fn is_occupied(&self, k: BufferKey) -> (b: bool)
        requires
            self.wf(),
        ensures
            b == (self.slot(k) is Some),
    {
        match self.find(k) {
            Some(i) => {
                proof {
                    lemma_slot_found(self.entries@, i as int);
                }
                true
            },
            None => {
                proof {
                    lemma_slot_absent(self.entries@, k);
                }
                false
            },
        }
    }

    /// Removes and returns the value held for `k`, leaving the slot empty.
    pub fn remove(&mut self, k: BufferKey) -> (r: Option<V>)
        requires
            old(self).wf(),
        ensures
            final(self).wf(),
            r == old(self).slot(k),
            final(self).slot(k) is None,
            forall|k2: BufferKey| k2 != k ==> final(self).slot(k2) == old(self).slot(k2),
    {
        match self.find(k) {
            Some(i) => {
                proof {
                    lemma_slot_found(self.entries@, i as int);
                }
                let ghost s_old = self.entries@;
                let (_, v) = self.entries.remove(i);
                proof {
                    assert forall|k2: BufferKey| k2 != k implies self.slot(k2) == seq_slot(
                        s_old,
                        k2,
                    ) by {
                        lemma_slot_remove(s_old, i as int, k2);
                    }
                    assert forall|a: int, b: int|
                        0 <= a < b < self.entries@.len() implies self.entries@[a].0
                        != self.entries@[b].0 by {
                        assert(self.entries@ == s_old.remove(i as int));
                        if a < i {
                            assert(self.entries@[a] == s_old[a]);
                        } else {
                            assert(self.entries@[a] == s_old[a + 1]);
                        }
                        if b < i {
                            assert(self.entries@[b] == s_old[b]);
                        } else {
                            assert(self.entries@[b] == s_old[b + 1]);
                        }
                    }
                    assert forall|j: int|
                        0 <= j < self.entries@.len() implies self.entries@[j].0 != k by {
                        assert(self.entries@ == s_old.remove(i as int));
                        if j < i {
                            assert(self.entries@[j] == s_old[j]);
                        } else {
                            assert(self.entries@[j] == s_old[j + 1]);
                        }
                    }
                    lemma_slot_absent(self.entries@, k);
                }
                Some(v)
            },
            None => {
                proof {
                    lemma_slot_absent(self.entries@, k);
                }
                None
            },
        }
    }

    /// Stores `v` for `k`, returning the value the slot held before, if any.
    pub fn insert(&mut self, k: BufferKey, v: V) -> (displaced: Option<V>)
        requires
            old(self).wf(),
        ensures
            final(self).wf(),
            displaced == old(self).slot(k),
            final(self).slot(k) == Some(v),
            forall|k2: BufferKey| k2 != k ==> final(self).slot(k2) == old(self).slot(k2),
    {
        let displaced = self.remove(k);
        let ghost s_mid = self.entries@;
        self.entries.push((k, v));
        proof {
            assert(self.entries@.drop_last() =~= s_mid);
            assert forall|a: int, b: int|
                0 <= a < b < self.entries@.len() implies self.entries@[a].0
                != self.entries@[b].0 by {
                if b < self.entries@.len() - 1 {
                    assert(self.entries@[a] == s_mid[a]);
                    assert(self.entries@[b] == s_mid[b]);
                } else {
                    assert(self.entries@[a] == s_mid[a]);
                    assert(self.entries@[b].0 == k);
                    lemma_slot_found(s_mid, a);
                }
            }
        }
        displaced
    }
}

} // verus!
