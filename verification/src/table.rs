//! A finite map from account ids to amounts, backed by an association list
//! with distinct keys. An absent key stands for the amount zero, which is how
//! both the balance table and the cumulative-claim table read their entries.

use vstd::prelude::*;

verus! {

pub struct AmountTable {
    entries: Vec<(u64, u64)>,
}

impl AmountTable {
    /// The keys stored are pairwise distinct, so each key names one amount.
    pub closed spec fn wf(self) -> bool {
        forall|i: int, j: int|
            0 <= i < j < self.entries@.len() ==> (#[trigger] self.entries@[i]).0 != (
            #[trigger] self.entries@[j]).0
    }

    pub closed spec fn has_key(self, a: u64) -> bool {
        exists|i: int| 0 <= i < self.entries@.len() && (#[trigger] self.entries@[i]).0 == a
    }

    /// The amount recorded under `a`; zero when no entry holds that key.
    pub closed spec fn amount_of(self, a: u64) -> u64 {
        if self.has_key(a) {
            self.entries@[choose|i: int|
                0 <= i < self.entries@.len() && (#[trigger] self.entries@[i]).0 == a].1
        } else {
            0
        }
    }

    proof fn lemma_key_at(self, a: u64, j: int)
        requires
            self.wf(),
            0 <= j < self.entries@.len(),
            self.entries@[j].0 == a,
        ensures
            self.has_key(a),
            self.amount_of(a) == self.entries@[j].1,
    {
        assert(self.has_key(a));
        let i = choose|i: int|
            0 <= i < self.entries@.len() && (#[trigger] self.entries@[i]).0 == a;
        if i < j {
            assert(self.entries@[i].0 != self.entries@[j].0);
        } else if j < i {
            assert(self.entries@[j].0 != self.entries@[i].0);
        }
    }

    pub fn new() -> (r: AmountTable)
        ensures
            r.wf(),
            forall|a: u64| !r.has_key(a) && r.amount_of(a) == 0,
    {
        AmountTable { entries: Vec::new() }
    }

    pub fn get(&self, a: u64) -> (r: u64)
        requires
            self.wf(),
        ensures
            r == self.amount_of(a),
    {
        let n = self.entries.len();
        let mut k: usize = 0;
        while k < n
            invariant
                n == self.entries@.len(),
                0 <= k <= n,
                forall|m: int| 0 <= m < k ==> (#[trigger] self.entries@[m]).0 != a,
                self.wf(),
            decreases n - k,
        {
            if self.entries[k].0 == a {
                proof {
                    self.lemma_key_at(a, k as int);
                }
                return self.entries[k].1;
            }
            k = k + 1;
        }
        assert(!self.has_key(a));
        0
    }

    /// Sets the amount under `a` to `v`, leaving every other key's amount as
    /// it was.
    pub fn set(&mut self, a: u64, v: u64)
        requires
            old(self).wf(),
        ensures
            final(self).wf(),
            final(self).has_key(a),
            final(self).amount_of(a) == v,
            forall|b: u64|
                b != a ==> final(self).amount_of(b) == old(self).amount_of(b)
                    && final(self).has_key(b) == old(self).has_key(b),
    {
        let n = self.entries.len();
        let mut k: usize = 0;
        while k < n
            invariant
                *self == *old(self),
                n == self.entries@.len(),
                0 <= k <= n,
                forall|m: int| 0 <= m < k ==> (#[trigger] self.entries@[m]).0 != a,
                self.wf(),
            decreases n - k,
        {
            if self.entries[k].0 == a {
                self.entries.set(k, (a, v));
                proof {
                    assert forall|m: int| 0 <= m < self.entries@.len() implies (
                    #[trigger] self.entries@[m]).0 == old(self).entries@[m].0 by {}
                    assert(self.wf());
                    self.lemma_key_at(a, k as int);
                    assert forall|b: u64|
                        b != a implies self.amount_of(b) == old(self).amount_of(b)
                        && self.has_key(b) == old(self).has_key(b) by {
                        Self::lemma_same_keys_same_lookup(*old(self), *self, b);
                    }
                }
                return ;
            }
            k = k + 1;
        }
        self.entries.push((a, v));
        proof {
            let last = self.entries@.len() - 1;
            assert(self.wf());
            self.lemma_key_at(a, last);
            assert forall|b: u64|
                b != a implies self.amount_of(b) == old(self).amount_of(b) && self.has_key(b)
                == old(self).has_key(b) by {
                if old(self).has_key(b) {
                    let i = choose|i: int|
                        0 <= i < old(self).entries@.len() && (#[trigger] old(self).entries@[i]).0
                            == b;
                    old(self).lemma_key_at(b, i);
                    self.lemma_key_at(b, i);
                } else {
                    assert(!self.has_key(b)) by {
                        if self.has_key(b) {
                            let i = choose|i: int|
                                0 <= i < self.entries@.len() && (#[trigger] self.entries@[i]).0
                                    == b;
                            assert(0 <= i < old(self).entries@.len() && old(self).entries@[i].0
                                == b);
                        }
                    }
                }
            }
        }
    }

    /// Two tables whose entry sequences carry the same keys at the same
    /// positions, and the same amount wherever the key is `b`, agree on `b`.
    proof fn lemma_same_keys_same_lookup(pre: AmountTable, post: AmountTable, b: u64)
        requires
            pre.wf(),
            post.wf(),
            pre.entries@.len() == post.entries@.len(),
            forall|m: int|
                0 <= m < pre.entries@.len() ==> (#[trigger] post.entries@[m]).0
                    == pre.entries@[m].0,
            forall|m: int|
                0 <= m < pre.entries@.len() && (#[trigger] pre.entries@[m]).0 == b
                    ==> post.entries@[m].1 == pre.entries@[m].1,
        ensures
            post.has_key(b) == pre.has_key(b),
            post.amount_of(b) == pre.amount_of(b),
    {
        if pre.has_key(b) {
            let i = choose|i: int|
                0 <= i < pre.entries@.len() && (#[trigger] pre.entries@[i]).0 == b;
            pre.lemma_key_at(b, i);
            post.lemma_key_at(b, i);
        } else {
            assert(!post.has_key(b)) by {
                if post.has_key(b) {
                    let i = choose|i: int|
                        0 <= i < post.entries@.len() && (#[trigger] post.entries@[i]).0 == b;
                    assert(0 <= i < pre.entries@.len() && pre.entries@[i].0 == b);
                }
            }
        }
    }
}

} // verus!
