use vstd::prelude::*;

use crate::address::Address;
use crate::u256::U256;

verus! {

/// A key type whose equality can be decided at run time.
pub trait TableKey: Sized {
    fn same(&self, other: &Self) -> (r: bool)
        ensures
            r == (*self == *other),
    ;
}

impl TableKey for Address {
    fn same(&self, other: &Address) -> (r: bool) {
        *self == *other
    }
}

impl TableKey for (Address, Address) {
    fn same(&self, other: &(Address, Address)) -> (r: bool) {
        self.0 == other.0 && self.1 == other.1
    }
}

impl TableKey for (u32, Address) {
    fn same(&self, other: &(u32, Address)) -> (r: bool) {
        self.0 == other.0 && self.1 == other.1
    }
}

/// No key stands in two entries.
pub open spec fn keys_unique<K>(s: Seq<(K, U256)>) -> bool {
    forall|i: int, j: int| 0 <= i < j < s.len() ==> s[i].0 != s[j].0
}

/// The amount stored under `k`, zero where there is none.
pub open spec fn lookup<K>(s: Seq<(K, U256)>, k: K) -> nat
    decreases s.len(),
{
    if s.len() == 0 {
        0
    } else if s.last().0 == k {
        s.last().1@
    } else {
        lookup(s.drop_last(), k)
    }
}

/// The sum of all stored amounts.
pub open spec fn total<K>(s: Seq<(K, U256)>) -> nat
    decreases s.len(),
{
    if s.len() == 0 {
        0
    } else {
        total(s.drop_last()) + s.last().1@
    }
}

proof fn lemma_lookup_at<K>(s: Seq<(K, U256)>, i: int)
    requires
        keys_unique(s),
        0 <= i < s.len(),
    ensures
        lookup(s, s[i].0) == s[i].1@,
    decreases s.len(),
{
    if i < s.len() - 1 {
        assert(s.drop_last()[i] == s[i]);
        lemma_lookup_at(s.drop_last(), i);
    }
}

proof fn lemma_lookup_absent<K>(s: Seq<(K, U256)>, k: K)
    requires
        forall|i: int| 0 <= i < s.len() ==> s[i].0 != k,
    ensures
        lookup(s, k) == 0,
    decreases s.len(),
{
    if s.len() > 0 {
        lemma_lookup_absent(s.drop_last(), k);
    }
}

proof fn lemma_lookup_le_total<K>(s: Seq<(K, U256)>, k: K)
    ensures
        lookup(s, k) <= total(s),
    decreases s.len(),
{
    if s.len() > 0 {
        lemma_lookup_le_total(s.drop_last(), k);
    }
}

proof fn lemma_total_update<K>(s: Seq<(K, U256)>, i: int, e: (K, U256))
    requires
        0 <= i < s.len(),
    ensures
        total(s.update(i, e)) + s[i].1@ == total(s) + e.1@,
    decreases s.len(),
{
    let t = s.update(i, e);
    if i < s.len() - 1 {
        assert(t.drop_last() =~= s.drop_last().update(i, e));
        lemma_total_update(s.drop_last(), i, e);
    } else {
        assert(t.drop_last() =~= s.drop_last());
    }
}

proof fn lemma_lookup_update<K>(s: Seq<(K, U256)>, i: int, v: U256, k2: K)
    requires
        keys_unique(s),
        0 <= i < s.len(),
    ensures
        keys_unique(s.update(i, (s[i].0, v))),
        lookup(s.update(i, (s[i].0, v)), k2) == if k2 == s[i].0 {
            v@
        } else {
            lookup(s, k2)
        },
{
    let t = s.update(i, (s[i].0, v));
    assert(keys_unique(t));
    if k2 == s[i].0 {
        lemma_lookup_at(t, i);
    } else if exists|j: int| 0 <= j < s.len() && s[j].0 == k2 {
        let j = choose|j: int| 0 <= j < s.len() && s[j].0 == k2;
        lemma_lookup_at(s, j);
        lemma_lookup_at(t, j);
    } else {
        lemma_lookup_absent(s, k2);
        lemma_lookup_absent(t, k2);
    }
}

/// A table from keys to 256-bit amounts; an absent key reads as zero.
pub struct AmountTable<K> {
    entries: Vec<(K, U256)>,
}

impl<K: TableKey> AmountTable<K> {
    pub closed spec fn wf(&self) -> bool {
        keys_unique(self.entries@)
    }

    /// The amount stored under `k`, or zero.
    pub closed spec fn get(&self, k: K) -> nat {
        lookup(self.entries@, k)
    }

    /// The sum of all amounts in the table.
    pub closed spec fn sum(&self) -> nat {
        total(self.entries@)
    }

    /// No single amount exceeds the sum.
    pub proof fn lemma_get_le_sum(&self, k: K)
        ensures
            self.get(k) <= self.sum(),
    {
        lemma_lookup_le_total(self.entries@, k);
    }

    pub fn new() -> (r: AmountTable<K>)
        ensures
            r.wf(),
            r.sum() == 0,
            forall|k: K| r.get(k) == 0,
    {
        AmountTable { entries: Vec::new() }
    }

    fn find(&self, k: &K) -> (r: Option<usize>)
        requires
            self.wf(),
        ensures
            match r {
                Some(i) => i < self.entries@.len() && self.entries@[i as int].0 == *k,
                None => forall|i: int| 0 <= i < self.entries@.len() ==> self.entries@[i].0 != *k,
            },
    {
        let mut i: usize = 0;
        while i < self.entries.len()
            invariant
                i <= self.entries@.len(),
                forall|j: int| 0 <= j < i ==> self.entries@[j].0 != *k,
            decreases self.entries@.len() - i,
        {
            if self.entries[i].0.same(k) {
                return Some(i);
            }
            i = i + 1;
        }
        None
    }

    /// The amount stored under `k`, or zero.
    pub fn get_amount(&self, k: &K) -> (r: U256)
        requires
            self.wf(),
        ensures
            r@ == self.get(*k),
    {
        match self.find(k) {
            Some(i) => {
                proof {
                    lemma_lookup_at(self.entries@, i as int);
                }
                self.entries[i].1
            },
            None => {
                proof {
                    lemma_lookup_absent(self.entries@, *k);
                }
                U256::zero()
            },
        }
    }

    /// Stores `v` under `k`, replacing what was there.
    pub fn set_amount(&mut self, k: K, v: U256)
        requires
            old(self).wf(),
        ensures
            final(self).wf(),
            forall|k2: K|
                #![trigger final(self).get(k2)]
                final(self).get(k2) == if k2 == k {
                    v@
                } else {
                    old(self).get(k2)
                },
            final(self).sum() + old(self).get(k) == old(self).sum() + v@,
    {
        match self.find(&k) {
            Some(i) => {
                proof {
                    lemma_lookup_at(self.entries@, i as int);
                    lemma_total_update(self.entries@, i as int, (k, v));
                    assert forall|k2: K| #![auto]
                        lookup(self.entries@.update(i as int, (k, v)), k2) == if k2 == k {
                            v@
                        } else {
                            lookup(self.entries@, k2)
                        } by {
                        lemma_lookup_update(self.entries@, i as int, v, k2);
                    }
                    lemma_lookup_update(self.entries@, i as int, v, k);
                }
                self.entries.set(i, (k, v));
            },
            None => {
                proof {
                    lemma_lookup_absent(self.entries@, k);
                    let t = self.entries@.push((k, v));
                    assert(t.drop_last() =~= self.entries@);
                }
                self.entries.push((k, v));
            },
        }
    }
}

} // verus!
