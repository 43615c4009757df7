//! Ordered collections keyed by 32-byte strings: a set and a map that hold
//! their elements in strictly increasing lexicographic order, so that each
//! element occurs once and iteration is in key order.

use vstd::prelude::*;
use crate::encoding::{encode_compact_u32, push_compact_len, push_bytes32};
use crate::keys::{DidEncryptionKey, encode_encryption_key};
use crate::bytes::{lex_lt, lex_lt_at, compare_bytes32, ByteOrder, lemma_lex_lt_transitive,
    lemma_lex_lt_asymmetric, lemma_lex_lt_irreflexive, lemma_lex_lt_total};

verus! {

/// The sequence is strictly increasing in lexicographic order.
pub open spec fn strictly_sorted(s: Seq<[u8; 32]>) -> bool {
    forall|i: int, j: int| 0 <= i < j < s.len() ==> lex_lt(#[trigger] s[i]@, #[trigger] s[j]@)
}

/// A strictly sorted sequence holds no element twice.
pub proof fn lemma_sorted_no_duplicates(s: Seq<[u8; 32]>)
    requires
        strictly_sorted(s),
    ensures
        s.no_duplicates(),
{
    assert forall|i: int, j: int| 0 <= i < s.len() && 0 <= j < s.len() && i != j implies s[i]
        != s[j] by {
        if i < j {
            assert(lex_lt(s[i]@, s[j]@));
        } else {
            assert(lex_lt(s[j]@, s[i]@));
        }
        lemma_lex_lt_irreflexive(s[i]@);
    }
}

/// Two strictly sorted sequences with the same elements are the same.
pub proof fn lemma_sorted_unique(a: Seq<[u8; 32]>, b: Seq<[u8; 32]>)
    requires
        strictly_sorted(a),
        strictly_sorted(b),
        a.to_set() == b.to_set(),
    ensures
        a == b,
    decreases a.len(),
{
    lemma_sorted_no_duplicates(a);
    lemma_sorted_no_duplicates(b);
    a.unique_seq_to_set();
    b.unique_seq_to_set();
    if a.len() == 0 {
        assert(b.len() == 0);
        assert(a =~= b);
    } else {
        // the smallest elements coincide
        assert(b.len() > 0);
        assert(a.to_set().contains(a[0]));
        assert(b.to_set().contains(a[0]));
        let k = choose|k: int| 0 <= k < b.len() && b[k] == a[0];
        assert(a.to_set().contains(b[0]));
        let m = choose|m: int| 0 <= m < a.len() && a[m] == b[0];
        if k != 0 {
            assert(lex_lt(b[0]@, b[k]@));
            if m != 0 {
                assert(lex_lt(a[0]@, a[m]@));
                lemma_lex_lt_asymmetric(b[0]@, a[0]@);
            } else {
                lemma_lex_lt_irreflexive(a[0]@);
            }
        }
        assert(a[0] == b[0]);
        let a1 = a.drop_first();
        let b1 = b.drop_first();
        assert forall|x: [u8; 32]| a1.to_set().contains(x) implies b1.to_set().contains(x) by {
            let i = choose|i: int| 0 <= i < a1.len() && a1[i] == x;
            assert(a.to_set().contains(x));
            let j = choose|j: int| 0 <= j < b.len() && b[j] == x;
            assert(a[i + 1] == x);
            if j == 0 {
                assert(lex_lt(a[0]@, a[i + 1]@));
                lemma_lex_lt_irreflexive(a[0]@);
            }
            assert(b1[j - 1] == x);
        }
        assert forall|x: [u8; 32]| b1.to_set().contains(x) implies a1.to_set().contains(x) by {
            let i = choose|i: int| 0 <= i < b1.len() && b1[i] == x;
            assert(b.to_set().contains(x));
            let j = choose|j: int| 0 <= j < a.len() && a[j] == x;
            assert(b[i + 1] == x);
            if j == 0 {
                assert(lex_lt(b[0]@, b[i + 1]@));
                lemma_lex_lt_irreflexive(b[0]@);
            }
            assert(a1[j - 1] == x);
        }
        assert(a1.to_set() =~= b1.to_set());
        lemma_sorted_unique(a1, b1);
        assert(a =~= b1.insert(0, b[0]));
        assert(b =~= b1.insert(0, b[0]));
    }
}

/// A set of 32-byte keys, held in increasing order.
#[derive(Clone, Debug, PartialEq, Eq)]
pub struct KeyIdSet {
    items: Vec<[u8; 32]>,
}

impl KeyIdSet {
    /// Well-formedness: the elements are held in strictly increasing order.
    pub closed spec fn wf(&self) -> bool {
        strictly_sorted(self.items@)
    }

    /// The elements in increasing order.
    pub closed spec fn elements(&self) -> Seq<[u8; 32]> {
        self.items@
    }

    /// The set of elements.
    pub open spec fn view(&self) -> Set<[u8; 32]> {
        self.elements().to_set()
    }

    /// In a well-formed set the elements are strictly increasing, hence
    /// distinct, and finite in number.
    pub proof fn lemma_elements(&self)
        requires
            self.wf(),
        ensures
            strictly_sorted(self.elements()),
            self.elements().no_duplicates(),
            self@.finite(),
            self@.len() == self.elements().len(),
    {
        lemma_sorted_no_duplicates(self.items@);
        self.items@.unique_seq_to_set();
    }

    /// An empty set.
    pub fn new() -> (s: Self)
        ensures
            s.wf(),
            s@ == Set::<[u8; 32]>::empty(),
            s.elements() == Seq::<[u8; 32]>::empty(),
    {
        let s = KeyIdSet { items: Vec::new() };
        assert(s@ =~= Set::<[u8; 32]>::empty());
        s
    }

    /// The number of elements.
    pub fn len(&self) -> (n: usize)
        requires
            self.wf(),
        ensures
            n == self@.len(),
            n == self.elements().len(),
    {
        proof {
            lemma_sorted_no_duplicates(self.items@);
            self.items@.unique_seq_to_set();
        }
        self.items.len()
    }

    /// The element at position `i` in increasing order.
    pub fn get(&self, i: usize) -> (k: &[u8; 32])
        requires
            i < self.elements().len(),
        ensures
            *k == self.elements()[i as int],
    {
        &self.items[i]
    }

    /// A copy of the set.
    pub fn duplicate(&self) -> (s: Self)
        ensures
            s.elements() == self.elements(),
            s@ == self@,
            self.wf() ==> s.wf(),
    {
        let mut items: Vec<[u8; 32]> = Vec::new();
        let mut i: usize = 0;
        while i < self.items.len()
            invariant
                i <= self.items@.len(),
                items@ == self.items@.take(i as int),
            decreases self.items@.len() - i,
        {
            items.push(self.items[i]);
            assert(self.items@.take(i + 1) =~= self.items@.take(i as int).push(self.items@[i as int]));
            i = i + 1;
        }
        assert(self.items@.take(i as int) =~= self.items@);
        KeyIdSet { items }
    }

    /// The first position whose element is not below `k`, and whether that
    /// element is `k`.
    fn search(&self, k: &[u8; 32]) -> (r: (usize, bool))
        requires
            self.wf(),
        ensures
            r.0 <= self.elements().len(),
            forall|i: int| 0 <= i < r.0 ==> lex_lt(#[trigger] self.elements()[i]@, k@),
            r.1 ==> r.0 < self.elements().len() && self.elements()[r.0 as int] == *k,
            !r.1 ==> r.0 < self.elements().len() ==> lex_lt(k@, self.elements()[r.0 as int]@),
            r.1 == self@.contains(*k),
    {
        let mut i: usize = 0;
        while i < self.items.len()
            invariant
                i <= self.items@.len(),
                strictly_sorted(self.items@),
                forall|j: int| 0 <= j < i ==> lex_lt(#[trigger] self.items@[j]@, k@),
            decreases self.items@.len() - i,
        {
            match compare_bytes32(&self.items[i], k) {
                ByteOrder::Less => {
                    i = i + 1;
                },
                ByteOrder::Equal => {
                    assert(self.items@.to_set().contains(self.items@[i as int]));
                    return (i, true);
                },
                ByteOrder::Greater => {
                    proof {
                        self.lemma_absent_at(k, i as int);
                    }
                    return (i, false);
                },
            }
        }
        proof {
            self.lemma_absent_at(k, i as int);
        }
        (i, false)
    }

    proof fn lemma_absent_at(&self, k: &[u8; 32], p: int)
        requires
            strictly_sorted(self.items@),
            0 <= p <= self.items@.len(),
            forall|j: int| 0 <= j < p ==> lex_lt(#[trigger] self.items@[j]@, k@),
            p < self.items@.len() ==> lex_lt(k@, self.items@[p]@),
        ensures
            !self@.contains(*k),
    {
        if self@.contains(*k) {
            let j = choose|j: int| 0 <= j < self.items@.len() && self.items@[j] == *k;
            if j < p {
                lemma_lex_lt_irreflexive(k@);
            } else if j == p {
                lemma_lex_lt_irreflexive(k@);
            } else {
                assert(lex_lt(self.items@[p]@, self.items@[j]@));
                lemma_lex_lt_asymmetric(k@, self.items@[p]@);
            }
        }
    }

    /// Whether `k` is an element.
    pub fn contains(&self, k: &[u8; 32]) -> (b: bool)
        requires
            self.wf(),
        ensures
            b == self@.contains(*k),
    {
        self.search(k).1
    }

    /// Adds `k`; returns whether it was absent before.
    pub fn insert(&mut self, k: [u8; 32]) -> (added: bool)
        requires
            old(self).wf(),
        ensures
            final(self).wf(),
            final(self)@ == old(self)@.insert(k),
            added == !old(self)@.contains(k),
    {
        let (p, found) = self.search(&k);
        if found {
            assert(old(self)@.insert(k) =~= old(self)@);
            return false;
        }
        let ghost old_items = self.items@;
        let ghost new_items = old_items.insert(p as int, k);
        proof {
            assert forall|i: int, j: int| 0 <= i < j < new_items.len() implies lex_lt(
                #[trigger] new_items[i]@,
                #[trigger] new_items[j]@,
            ) by {
                if j < p {
                    assert(lex_lt(old_items[i]@, old_items[j]@));
                } else if j == p {
                    assert(new_items[i] == old_items[i]);
                } else if i < p {
                    assert(lex_lt(old_items[i]@, k@));
                    assert(new_items[j] == old_items[j - 1]);
                    if j - 1 == p {
                    } else {
                        assert(lex_lt(old_items[p as int]@, old_items[j - 1]@));
                        lemma_lex_lt_transitive(k@, old_items[p as int]@, old_items[j - 1]@);
                    }
                    lemma_lex_lt_transitive(old_items[i]@, k@, old_items[j - 1]@);
                } else if i == p {
                    assert(new_items[j] == old_items[j - 1]);
                    if j - 1 == p {
                    } else {
                        assert(lex_lt(old_items[p as int]@, old_items[j - 1]@));
                        lemma_lex_lt_transitive(k@, old_items[p as int]@, old_items[j - 1]@);
                    }
                } else {
                    assert(new_items[i] == old_items[i - 1]);
                    assert(new_items[j] == old_items[j - 1]);
                }
            }
        }
        self.items.insert(p, k);
        assert(self.items@ == new_items);
        proof {
            assert forall|x: [u8; 32]| #[trigger] self@.contains(x) <==> old(self)@.insert(
                k,
            ).contains(x) by {
                if self@.contains(x) {
                    let j = choose|j: int| 0 <= j < new_items.len() && new_items[j] == x;
                    if j < p {
                        assert(old_items[j] == x);
                    } else if j > p {
                        assert(old_items[j - 1] == x);
                    }
                }
                if old(self)@.contains(x) {
                    let j = choose|j: int| 0 <= j < old_items.len() && old_items[j] == x;
                    if j < p {
                        assert(new_items[j] == x);
                    } else {
                        assert(new_items[j + 1] == x);
                    }
                }
                if x == k {
                    assert(new_items[p as int] == x);
                }
            }
            assert(self@ =~= old(self)@.insert(k));
        }
        true
    }

    /// Removes `k`; returns whether it was present before.
    pub fn remove(&mut self, k: &[u8; 32]) -> (removed: bool)
        requires
            old(self).wf(),
        ensures
            final(self).wf(),
            final(self)@ == old(self)@.remove(*k),
            removed == old(self)@.contains(*k),
    {
        let (p, found) = self.search(k);
        if !found {
            assert(old(self)@.remove(*k) =~= old(self)@);
            return false;
        }
        proof {
            lemma_sorted_no_duplicates(self.items@);
        }
        let ghost old_items = self.items@;
        let ghost new_items = old_items.remove(p as int);
        proof {
            assert forall|i: int, j: int| 0 <= i < j < new_items.len() implies lex_lt(
                #[trigger] new_items[i]@,
                #[trigger] new_items[j]@,
            ) by {
                if j < p {
                } else if i < p {
                    assert(new_items[j] == old_items[j + 1]);
                } else {
                    assert(new_items[i] == old_items[i + 1]);
                    assert(new_items[j] == old_items[j + 1]);
                }
            }
        }
        self.items.remove(p);
        assert(self.items@ == new_items);
        proof {
            assert forall|x: [u8; 32]| #[trigger] self@.contains(x) <==> old(self)@.remove(
                *k,
            ).contains(x) by {
                if self@.contains(x) {
                    let j = choose|j: int| 0 <= j < new_items.len() && new_items[j] == x;
                    if j < p {
                        assert(old_items[j] == x);
                    } else {
                        assert(old_items[j + 1] == x);
                        assert(old_items[p as int] == *k);
                    }
                }
                if old(self)@.contains(x) && x != *k {
                    let j = choose|j: int| 0 <= j < old_items.len() && old_items[j] == x;
                    if j < p {
                        assert(new_items[j] == x);
                    } else {
                        assert(j != p);
                        assert(new_items[j - 1] == x);
                    }
                }
            }
            assert(self@ =~= old(self)@.remove(*k));
        }
        true
    }
}

} // verus!

verus! {

/// The keys of a sequence of entries.
pub open spec fn entry_keys<V>(s: Seq<([u8; 32], V)>) -> Seq<[u8; 32]> {
    s.map_values(|e: ([u8; 32], V)| e.0)
}

/// A map from 32-byte keys to values, held in increasing key order.
#[derive(Clone, Debug, PartialEq)]
pub struct KeyMap<V> {
    items: Vec<([u8; 32], V)>,
}

impl<V> KeyMap<V> {
    /// Well-formedness: the keys are held in strictly increasing order.
    pub closed spec fn wf(&self) -> bool {
        strictly_sorted(entry_keys(self.items@))
    }

    /// The entries in increasing key order.
    pub closed spec fn entries(&self) -> Seq<([u8; 32], V)> {
        self.items@
    }

    spec fn has_key_at(&self, k: [u8; 32], i: int) -> bool {
        0 <= i < self.items@.len() && self.items@[i].0 == k
    }

    /// The map from keys to values.
    pub closed spec fn view(&self) -> Map<[u8; 32], V> {
        Map::new(
            |k: [u8; 32]| exists|i: int| self.has_key_at(k, i),
            |k: [u8; 32]| self.items@[choose|i: int| self.has_key_at(k, i)].1,
        )
    }

    proof fn lemma_view_at(&self, i: int)
        requires
            self.wf(),
            0 <= i < self.items@.len(),
        ensures
            self@.contains_key(self.items@[i].0),
            self@[self.items@[i].0] == self.items@[i].1,
    {
        let k = self.items@[i].0;
        assert(self.has_key_at(k, i));
        let c = choose|c: int| self.has_key_at(k, c);
        lemma_sorted_no_duplicates(entry_keys(self.items@));
        assert(entry_keys(self.items@)[c] == entry_keys(self.items@)[i]);
    }

    /// A well-formed map holds finitely many keys, one entry for each.
    pub proof fn lemma_wf(&self)
        requires
            self.wf(),
        ensures
            self@.dom().finite(),
            self@.dom().len() == self.entries().len(),
            self@.dom() == entry_keys(self.entries()).to_set(),
    {
        let ks = entry_keys(self.items@);
        lemma_sorted_no_duplicates(ks);
        ks.unique_seq_to_set();
        assert forall|k: [u8; 32]| #[trigger] self@.dom().contains(k) <==> ks.to_set().contains(k) by {
            if self@.dom().contains(k) {
                let i = choose|i: int| self.has_key_at(k, i);
                assert(ks[i] == k);
            }
            if ks.to_set().contains(k) {
                let i = choose|i: int| 0 <= i < ks.len() && ks[i] == k;
                assert(self.has_key_at(k, i));
            }
        }
        assert(self@.dom() =~= ks.to_set());
    }

    /// An empty map.
    pub fn new() -> (m: Self)
        ensures
            m.wf(),
            m@ == Map::<[u8; 32], V>::empty(),
    {
        let m = KeyMap { items: Vec::new() };
        assert(m@ =~= Map::<[u8; 32], V>::empty());
        m
    }

    /// The number of entries.
    pub fn len(&self) -> (n: usize)
        requires
            self.wf(),
        ensures
            n == self@.len(),
            n == self.entries().len(),
    {
        proof {
            self.lemma_wf();
        }
        self.items.len()
    }

    /// The entry at position `i` in increasing key order.
    pub fn entry(&self, i: usize) -> (e: &([u8; 32], V))
        requires
            i < self.entries().len(),
        ensures
            *e == self.entries()[i as int],
    {
        &self.items[i]
    }

    /// Whether the map has no entries.
    pub fn is_empty(&self) -> (b: bool)
        requires
            self.wf(),
        ensures
            b == (self@.len() == 0),
    {
        self.len() == 0
    }

    /// The first position whose key is not below `k`, and whether that key
    /// is `k`.
    fn search(&self, k: &[u8; 32]) -> (r: (usize, bool))
        requires
            self.wf(),
        ensures
            r.0 <= self.items@.len(),
            forall|i: int| 0 <= i < r.0 ==> lex_lt(#[trigger] self.items@[i].0@, k@),
            r.1 ==> r.0 < self.items@.len() && self.items@[r.0 as int].0 == *k,
            !r.1 ==> r.0 < self.items@.len() ==> lex_lt(k@, self.items@[r.0 as int].0@),
            r.1 == self@.contains_key(*k),
    {
        let ghost ks = entry_keys(self.items@);
        let mut i: usize = 0;
        while i < self.items.len()
            invariant
                i <= self.items@.len(),
                ks == entry_keys(self.items@),
                strictly_sorted(ks),
                forall|j: int| 0 <= j < i ==> lex_lt(#[trigger] self.items@[j].0@, k@),
            decreases self.items@.len() - i,
        {
            match compare_bytes32(&self.items[i].0, k) {
                ByteOrder::Less => {
                    i = i + 1;
                },
                ByteOrder::Equal => {
                    assert(self.has_key_at(*k, i as int));
                    return (i, true);
                },
                ByteOrder::Greater => {
                    proof {
                        self.lemma_absent_at(k, i as int);
                    }
                    return (i, false);
                },
            }
        }
        proof {
            self.lemma_absent_at(k, i as int);
        }
        (i, false)
    }

    proof fn lemma_absent_at(&self, k: &[u8; 32], p: int)
        requires
            self.wf(),
            0 <= p <= self.items@.len(),
            forall|j: int| 0 <= j < p ==> lex_lt(#[trigger] self.items@[j].0@, k@),
            p < self.items@.len() ==> lex_lt(k@, self.items@[p].0@),
        ensures
            !self@.contains_key(*k),
    {
        let ks = entry_keys(self.items@);
        if self@.contains_key(*k) {
            let j = choose|j: int| self.has_key_at(*k, j);
            if j < p {
                lemma_lex_lt_irreflexive(k@);
            } else if j == p {
                lemma_lex_lt_irreflexive(k@);
            } else {
                assert(lex_lt(ks[p]@, ks[j]@));
                lemma_lex_lt_asymmetric(k@, self.items@[p].0@);
            }
        }
    }

    /// Whether `k` has an entry.
    pub fn contains_key(&self, k: &[u8; 32]) -> (b: bool)
        requires
            self.wf(),
        ensures
            b == self@.contains_key(*k),
    {
        self.search(k).1
    }

    /// The value stored under `k`, if any.
    pub fn get(&self, k: &[u8; 32]) -> (v: Option<&V>)
        requires
            self.wf(),
        ensures
            v.is_some() == self@.contains_key(*k),
            v matches Some(x) ==> *x == self@[*k],
    {
        let (p, found) = self.search(k);
        if found {
            proof {
                self.lemma_view_at(p as int);
            }
            Some(&self.items[p].1)
        } else {
            None
        }
    }

    /// Stores `v` under `k`, replacing any value stored there before.
    pub fn insert(&mut self, k: [u8; 32], v: V)
        requires
            old(self).wf(),
        ensures
            final(self).wf(),
            final(self)@ == old(self)@.insert(k, v),
    {
        let (p, found) = self.search(&k);
        let ghost old_items = self.items@;
        let ghost ks = entry_keys(old_items);
        if found {
            let ghost new_items = old_items.update(p as int, (k, v));
            assert(entry_keys(new_items) =~= ks);
            self.items.set(p, (k, v));
            assert(self.items@ == new_items);
            proof {
                assert forall|x: [u8; 32]| #[trigger] self@.contains_key(x) <==> old(self)@.insert(
                    k,
                    v,
                ).contains_key(x) by {
                    if self@.contains_key(x) {
                        let j = choose|j: int| self.has_key_at(x, j);
                        if j != p {
                            assert(old(self).has_key_at(x, j));
                        }
                    }
                    if old(self)@.contains_key(x) {
                        let j = choose|j: int| old(self).has_key_at(x, j);
                        assert(self.has_key_at(x, j));
                    }
                    if x == k {
                        assert(self.has_key_at(x, p as int));
                    }
                }
                assert forall|x: [u8; 32]| #[trigger] self@.contains_key(x) implies self@[x]
                    == old(self)@.insert(k, v)[x] by {
                    let j = choose|j: int| self.has_key_at(x, j);
                    self.lemma_view_at(j);
                    if j != p {
                        old(self).lemma_view_at(j);
                        lemma_sorted_no_duplicates(ks);
                        assert(ks[j] != ks[p as int]);
                    }
                }
                assert(self@ =~= old(self)@.insert(k, v));
            }
            return ;
        }
        let ghost new_items = old_items.insert(p as int, (k, v));
        let ghost nks = entry_keys(new_items);
        proof {
            assert(nks =~= ks.insert(p as int, k));
            assert forall|i: int, j: int| 0 <= i < j < nks.len() implies lex_lt(
                #[trigger] nks[i]@,
                #[trigger] nks[j]@,
            ) by {
                if j < p {
                    assert(lex_lt(ks[i]@, ks[j]@));
                } else if j == p {
                    assert(nks[i] == ks[i]);
                    assert(lex_lt(old_items[i].0@, k@));
                } else if i < p {
                    assert(lex_lt(old_items[i].0@, k@));
                    assert(nks[j] == ks[j - 1]);
                    if j - 1 == p {
                    } else {
                        assert(lex_lt(ks[p as int]@, ks[j - 1]@));
                        lemma_lex_lt_transitive(k@, ks[p as int]@, ks[j - 1]@);
                    }
                    lemma_lex_lt_transitive(ks[i]@, k@, ks[j - 1]@);
                } else if i == p {
                    assert(nks[j] == ks[j - 1]);
                    if j - 1 == p {
                    } else {
                        assert(lex_lt(ks[p as int]@, ks[j - 1]@));
                        lemma_lex_lt_transitive(k@, ks[p as int]@, ks[j - 1]@);
                    }
                } else {
                    assert(nks[i] == ks[i - 1]);
                    assert(nks[j] == ks[j - 1]);
                }
            }
        }
        self.items.insert(p, (k, v));
        assert(self.items@ == new_items);
        proof {
            assert forall|x: [u8; 32]| #[trigger] self@.contains_key(x) <==> old(self)@.insert(
                k,
                v,
            ).contains_key(x) by {
                if self@.contains_key(x) {
                    let j = choose|j: int| self.has_key_at(x, j);
                    if j < p {
                        assert(old(self).has_key_at(x, j));
                    } else if j > p {
                        assert(old(self).has_key_at(x, j - 1));
                    }
                }
                if old(self)@.contains_key(x) {
                    let j = choose|j: int| old(self).has_key_at(x, j);
                    if j < p {
                        assert(self.has_key_at(x, j));
                    } else {
                        assert(self.has_key_at(x, j + 1));
                    }
                }
                if x == k {
                    assert(self.has_key_at(x, p as int));
                }
            }
            assert forall|x: [u8; 32]| #[trigger] self@.contains_key(x) implies self@[x]
                == old(self)@.insert(k, v)[x] by {
                let j = choose|j: int| self.has_key_at(x, j);
                self.lemma_view_at(j);
                if j < p {
                    old(self).lemma_view_at(j);
                    assert(lex_lt(old_items[j].0@, k@));
                    lemma_lex_lt_irreflexive(k@);
                } else if j > p {
                    old(self).lemma_view_at(j - 1);
                    assert(nks[p as int] == k);
                    assert(lex_lt(nks[p as int]@, nks[j]@));
                    lemma_lex_lt_irreflexive(k@);
                }
            }
            assert(self@ =~= old(self)@.insert(k, v));
        }
    }

    /// Removes the entry of `k`, returning its value if there was one.
    pub fn remove(&mut self, k: &[u8; 32]) -> (v: Option<V>)
        requires
            old(self).wf(),
        ensures
            final(self).wf(),
            final(self)@ == old(self)@.remove(*k),
            v.is_some() == old(self)@.contains_key(*k),
            v matches Some(x) ==> x == old(self)@[*k],
    {
        let (p, found) = self.search(k);
        if !found {
            assert(old(self)@.remove(*k) =~= old(self)@);
            return None;
        }
        let ghost old_items = self.items@;
        let ghost ks = entry_keys(old_items);
        let ghost new_items = old_items.remove(p as int);
        let ghost nks = entry_keys(new_items);
        proof {
            lemma_sorted_no_duplicates(ks);
            self.lemma_view_at(p as int);
            assert(nks =~= ks.remove(p as int));
            assert forall|i: int, j: int| 0 <= i < j < nks.len() implies lex_lt(
                #[trigger] nks[i]@,
                #[trigger] nks[j]@,
            ) by {
                if j < p {
                } else if i < p {
                    assert(nks[j] == ks[j + 1]);
                } else {
                    assert(nks[i] == ks[i + 1]);
                    assert(nks[j] == ks[j + 1]);
                }
            }
        }
        let e = self.items.remove(p);
        assert(self.items@ == new_items);
        proof {
            assert forall|x: [u8; 32]| #[trigger] self@.contains_key(x) <==> old(self)@.remove(
                *k,
            ).contains_key(x) by {
                if self@.contains_key(x) {
                    let j = choose|j: int| self.has_key_at(x, j);
                    if j < p {
                        assert(old(self).has_key_at(x, j));
                        assert(ks[j] != ks[p as int]);
                    } else {
                        assert(old(self).has_key_at(x, j + 1));
                        assert(ks[j + 1] != ks[p as int]);
                    }
                }
                if old(self)@.contains_key(x) && x != *k {
                    let j = choose|j: int| old(self).has_key_at(x, j);
                    if j < p {
                        assert(self.has_key_at(x, j));
                    } else {
                        assert(j != p);
                        assert(self.has_key_at(x, j - 1));
                    }
                }
            }
            assert forall|x: [u8; 32]| #[trigger] self@.contains_key(x) implies self@[x]
                == old(self)@.remove(*k)[x] by {
                let j = choose|j: int| self.has_key_at(x, j);
                self.lemma_view_at(j);
                if j < p {
                    old(self).lemma_view_at(j);
                } else {
                    old(self).lemma_view_at(j + 1);
                }
            }
            assert(self@ =~= old(self)@.remove(*k));
        }
        Some(e.1)
    }
}

} // verus!

verus! {

/// The bytes of a 32-byte string, as a function.
pub open spec fn bytes32_fn() -> spec_fn([u8; 32]) -> Seq<u8> {
    |k: [u8; 32]| k@
}

/// The SCALE encoding of an ordered set of 32-byte keys: the compact
/// length, then the keys in increasing order.
pub open spec fn encode_key_id_set(elements: Seq<[u8; 32]>) -> Seq<u8> {
    encode_compact_u32(elements.len() as u32) + elements.flat_map(bytes32_fn())
}

impl KeyIdSet {
    /// Appends the SCALE encoding of the set.
    pub fn encode_to(&self, out: &mut Vec<u8>)
        requires
            self.wf(),
            self.elements().len() <= u32::MAX,
        ensures
            final(out)@ == old(out)@ + encode_key_id_set(self.elements()),
    {
        let n = self.len();
        push_compact_len(out, n);
        let ghost start = out@;
        let ghost s = self.elements();
        let mut i: usize = 0;
        while i < n
            invariant
                i <= n == s.len(),
                s == self.elements(),
                out@ == start + s.take(i as int).flat_map(bytes32_fn()),
            decreases n - i,
        {
            push_bytes32(out, self.get(i));
            proof {
                assert(s.take(i + 1) =~= s.take(i as int).push(s[i as int]));
                s.take(i as int).lemma_flat_map_push(bytes32_fn(), s[i as int]);
            }
            i = i + 1;
        }
        assert(s.take(n as int) =~= s);
        assert(out@ =~= old(out)@ + encode_key_id_set(self.elements()));
    }
}

/// The raw bytes of an encryption key.
pub open spec fn encryption_key_bytes(k: DidEncryptionKey) -> [u8; 32] {
    match k {
        DidEncryptionKey::X25519(b) => b,
    }
}

/// The encryption key with the given raw bytes.
pub open spec fn x25519_key(b: [u8; 32]) -> DidEncryptionKey {
    DidEncryptionKey::X25519(b)
}

/// The SCALE encoding of an encryption key, as a function.
pub open spec fn encryption_key_fn() -> spec_fn(DidEncryptionKey) -> Seq<u8> {
    |k: DidEncryptionKey| encode_encryption_key(k)
}

/// The SCALE encoding of an ordered set of encryption keys: the compact
/// length, then the keys in increasing order.
pub open spec fn encode_encryption_key_set(elements: Seq<DidEncryptionKey>) -> Seq<u8> {
    encode_compact_u32(elements.len() as u32) + elements.flat_map(encryption_key_fn())
}

/// A set of encryption keys, held in increasing order.
#[derive(Clone, Debug, PartialEq, Eq)]
pub struct DidEncryptionKeySet {
    keys: KeyIdSet,
}

impl DidEncryptionKeySet {
    /// Well-formedness: the keys are held in strictly increasing order.
    pub closed spec fn wf(&self) -> bool {
        self.keys.wf()
    }

    /// The keys in increasing order.
    pub closed spec fn elements(&self) -> Seq<DidEncryptionKey> {
        self.keys.elements().map_values(|b: [u8; 32]| x25519_key(b))
    }

    /// The set of keys.
    pub open spec fn view(&self) -> Set<DidEncryptionKey> {
        self.elements().to_set()
    }

    /// An empty set.
    pub fn new() -> (s: Self)
        ensures
            s.wf(),
            s@ == Set::<DidEncryptionKey>::empty(),
            s.elements().len() == 0,
    {
        let s = DidEncryptionKeySet { keys: KeyIdSet::new() };
        assert(s@ =~= Set::<DidEncryptionKey>::empty());
        s
    }

    /// The number of keys.
    pub fn len(&self) -> (n: usize)
        requires
            self.wf(),
        ensures
            n == self.elements().len(),
            n == self@.len(),
    {
        proof {
            self.keys.lemma_elements();
            let e = self.elements();
            assert forall|i: int, j: int| 0 <= i < e.len() && 0 <= j < e.len() && i != j implies e[i]
                != e[j] by {
                assert(self.keys.elements()[i] != self.keys.elements()[j]);
            }
            e.unique_seq_to_set();
        }
        self.keys.len()
    }

    /// The key at position `i` in increasing order.
    pub fn get(&self, i: usize) -> (k: DidEncryptionKey)
        requires
            i < self.elements().len(),
        ensures
            k == self.elements()[i as int],
    {
        DidEncryptionKey::X25519(*self.keys.get(i))
    }

    /// Whether `k` is in the set.
    pub fn contains(&self, k: &DidEncryptionKey) -> (b: bool)
        requires
            self.wf(),
        ensures
            b == self@.contains(*k),
    {
        let DidEncryptionKey::X25519(bytes) = k;
        let r = self.keys.contains(bytes);
        proof {
            if r {
                let i = choose|i: int| 0 <= i < self.keys.elements().len() && self.keys.elements()[i] == *bytes;
                assert(self.elements()[i] == *k);
            }
            if self@.contains(*k) {
                let i = choose|i: int| 0 <= i < self.elements().len() && self.elements()[i] == *k;
                assert(self.keys.elements()[i] == *bytes);
            }
        }
        r
    }

    /// Adds `k`; returns whether it was absent before.
    pub fn insert(&mut self, k: DidEncryptionKey) -> (added: bool)
        requires
            old(self).wf(),
        ensures
            final(self).wf(),
            final(self)@ == old(self)@.insert(k),
            added == !old(self)@.contains(k),
    {
        let ghost before = self.keys@;
        let DidEncryptionKey::X25519(bytes) = k;
        let r = self.keys.insert(bytes);
        proof {
            assert forall|x: DidEncryptionKey| #[trigger] self@.contains(x) <==> old(self)@.insert(
                k,
            ).contains(x) by {
                let xb = encryption_key_bytes(x);
                if self@.contains(x) {
                    let i = choose|i: int| 0 <= i < self.elements().len() && self.elements()[i] == x;
                    assert(self.keys@.contains(self.keys.elements()[i]));
                    if xb != bytes {
                        let j = choose|j: int| 0 <= j < old(self).keys.elements().len() && old(self).keys.elements()[j] == xb;
                        assert(old(self).elements()[j] == x);
                    }
                }
                if old(self)@.contains(x) {
                    let i = choose|i: int| 0 <= i < old(self).elements().len() && old(self).elements()[i] == x;
                    assert(old(self).keys@.contains(old(self).keys.elements()[i]));
                    assert(self.keys@.contains(xb));
                    let j = choose|j: int| 0 <= j < self.keys.elements().len() && self.keys.elements()[j] == xb;
                    assert(self.elements()[j] == x);
                }
                if x == k {
                    assert(self.keys@.contains(bytes));
                    let j = choose|j: int| 0 <= j < self.keys.elements().len() && self.keys.elements()[j] == bytes;
                    assert(self.elements()[j] == x);
                }
            }
            assert(self@ =~= old(self)@.insert(k));
            if old(self)@.contains(k) {
                let i = choose|i: int| 0 <= i < old(self).elements().len() && old(self).elements()[i] == k;
                assert(old(self).keys@.contains(old(self).keys.elements()[i]));
            }
            if before.contains(bytes) {
                let j = choose|j: int| 0 <= j < old(self).keys.elements().len() && old(self).keys.elements()[j] == bytes;
                assert(old(self).elements()[j] == k);
            }
        }
        r
    }

    /// Appends the SCALE encoding of the set.
    pub fn encode_to(&self, out: &mut Vec<u8>)
        requires
            self.wf(),
            self.elements().len() <= u32::MAX,
        ensures
            final(out)@ == old(out)@ + encode_encryption_key_set(self.elements()),
    {
        let n = self.len();
        push_compact_len(out, n);
        let ghost start = out@;
        let ghost s = self.elements();
        let mut i: usize = 0;
        while i < n
            invariant
                i <= n == s.len(),
                s == self.elements(),
                out@ == start + s.take(i as int).flat_map(encryption_key_fn()),
            decreases n - i,
        {
            let k = self.get(i);
            k.encode_to(out);
            proof {
                assert(s.take(i + 1) =~= s.take(i as int).push(s[i as int]));
                s.take(i as int).lemma_flat_map_push(encryption_key_fn(), s[i as int]);
            }
            i = i + 1;
        }
        assert(s.take(n as int) =~= s);
        assert(out@ =~= old(out)@ + encode_encryption_key_set(self.elements()));
    }
}

} // verus!

verus! {

impl<V: Copy> KeyMap<V> {
    /// A copy of the map.
    pub fn duplicate(&self) -> (m: Self)
        ensures
            m.entries() == self.entries(),
            self.wf() ==> m.wf() && m@ == self@,
    {
        let mut items: Vec<([u8; 32], V)> = Vec::new();
        let mut i: usize = 0;
        while i < self.items.len()
            invariant
                i <= self.items@.len(),
                items@ == self.items@.take(i as int),
            decreases self.items@.len() - i,
        {
            let e = self.items[i];
            items.push(e);
            assert(self.items@.take(i + 1) =~= self.items@.take(i as int).push(self.items@[i as int]));
            i = i + 1;
        }
        assert(self.items@.take(i as int) =~= self.items@);
        let m = KeyMap { items };
        assert forall|k: [u8; 32]| #[trigger] m@.contains_key(k) <==> self@.contains_key(k) by {
            if m@.contains_key(k) {
                let i = choose|i: int| m.has_key_at(k, i);
                assert(self.has_key_at(k, i));
            }
            if self@.contains_key(k) {
                let i = choose|i: int| self.has_key_at(k, i);
                assert(m.has_key_at(k, i));
            }
        }
        proof {
            if self.wf() {
            assert forall|k: [u8; 32]| #[trigger] m@.contains_key(k) implies m@[k] == self@[k] by {
                let i = choose|i: int| m.has_key_at(k, i);
                let j = choose|j: int| self.has_key_at(k, j);
                assert(m.items@[i] == self.items@[i]);
                lemma_sorted_no_duplicates(entry_keys(self.items@));
                assert(entry_keys(self.items@)[i] == entry_keys(self.items@)[j]);
            }
            assert(m@ =~= self@);
            }
        }
        m
    }
}

} // verus!
