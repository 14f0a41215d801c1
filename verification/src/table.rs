//! A small association table from numeric slot ids to values, with a
//! `Map` view.  Both the committed and the uncommitted side of an asset
//! store are tables of this kind, as is the indirection table.
//!
//! Entries are kept in insertion order in a vector with pairwise-distinct
//! keys, so iteration is deterministic, and every operation is specified
//! exactly against the mathematical map the table denotes.

use vstd::prelude::*;
use vstd::pervasive::VecAdditionalExecFns;
use vstd::pervasive::unreached;

verus! {

/// Pairwise-distinct keys.
spec fn entries_wf<V>(s: Seq<(u64, V)>) -> bool {
    forall|i: int, j: int|
        0 <= i < s.len() && 0 <= j < s.len() && i != j ==> (#[trigger] s[i]).0 != (
        #[trigger] s[j]).0
}

/// Whether some entry carries the key `k`.
spec fn has_key<V>(s: Seq<(u64, V)>, k: u64) -> bool {
    exists|i: int| 0 <= i < s.len() && (#[trigger] s[i]).0 == k
}

/// The mathematical map an entry sequence denotes: later entries win,
/// though a well-formed table never holds a key twice.
spec fn entries_map<V>(s: Seq<(u64, V)>) -> Map<u64, V>
    decreases s.len(),
{
    if s.len() == 0 {
        Map::empty()
    } else {
        entries_map(s.drop_last()).insert(s.last().0, s.last().1)
    }
}

proof fn lemma_dom_is_keys<V>(s: Seq<(u64, V)>)
    ensures
        forall|k: u64| entries_map(s).dom().contains(k) <==> has_key(s, k),
        entries_map(s).dom().finite(),
    decreases s.len(),
{
    if s.len() == 0 {
    } else {
        lemma_dom_is_keys(s.drop_last());
        assert forall|k: u64| entries_map(s).dom().contains(k) <==> has_key(s, k) by {
            if entries_map(s).dom().contains(k) {
                if k == s.last().0 {
                    assert(s[s.len() - 1].0 == k);
                } else {
                    assert(entries_map(s.drop_last()).dom().contains(k));
                    assert(has_key(s.drop_last(), k));
                    let i = choose|i: int|
                        0 <= i < s.drop_last().len() && (#[trigger] s.drop_last()[i]).0 == k;
                    assert(s.drop_last()[i] == s[i]);
                    assert(s[i].0 == k);
                }
            }
            if has_key(s, k) {
                let i = choose|i: int| 0 <= i < s.len() && (#[trigger] s[i]).0 == k;
                if i == s.len() - 1 {
                    assert(entries_map(s).dom().contains(k));
                } else {
                    assert(s.drop_last()[i] == s[i]);
                    assert(s.drop_last()[i].0 == k);
                    assert(has_key(s.drop_last(), k));
                    assert(entries_map(s.drop_last()).dom().contains(k));
                    assert(entries_map(s).dom().contains(k));
                }
            }
        }
    }
}

proof fn lemma_drop_last_wf<V>(s: Seq<(u64, V)>)
    requires
        entries_wf(s),
        s.len() > 0,
    ensures
        entries_wf(s.drop_last()),
{
    assert forall|i: int, j: int|
        0 <= i < s.drop_last().len() && 0 <= j < s.drop_last().len() && i != j implies (
    #[trigger] s.drop_last()[i]).0 != (#[trigger] s.drop_last()[j]).0 by {
        assert(s.drop_last()[i] == s[i]);
        assert(s.drop_last()[j] == s[j]);
    }
}

proof fn lemma_entries_map_at<V>(s: Seq<(u64, V)>, i: int)
    requires
        entries_wf(s),
        0 <= i < s.len(),
    ensures
        entries_map(s).dom().contains(s[i].0),
        entries_map(s)[s[i].0] == s[i].1,
    decreases s.len(),
{
    if i == s.len() - 1 {
    } else {
        assert(s[i].0 != s.last().0);
        lemma_drop_last_wf(s);
        assert(s.drop_last()[i] == s[i]);
        lemma_entries_map_at(s.drop_last(), i);
    }
}

proof fn lemma_entries_map_update<V>(s: Seq<(u64, V)>, i: int, v: V)
    requires
        entries_wf(s),
        0 <= i < s.len(),
    ensures
        entries_map(s.update(i, (s[i].0, v))) == entries_map(s).insert(s[i].0, v),
        entries_wf(s.update(i, (s[i].0, v))),
    decreases s.len(),
{
    let k = s[i].0;
    let t = s.update(i, (k, v));
    assert forall|a: int, b: int|
        0 <= a < t.len() && 0 <= b < t.len() && a != b implies (#[trigger] t[a]).0 != (
    #[trigger] t[b]).0 by {
        assert(t[a].0 == s[a].0);
        assert(t[b].0 == s[b].0);
    }
    if i == s.len() - 1 {
        assert(t.drop_last() =~= s.drop_last());
        assert(t.last() == (k, v));
        assert(entries_map(s.drop_last()).insert(k, v) =~= entries_map(s).insert(k, v));
    } else {
        lemma_drop_last_wf(s);
        assert(t.drop_last() =~= s.drop_last().update(i, (k, v)));
        assert(s.drop_last()[i] == s[i]);
        lemma_entries_map_update(s.drop_last(), i, v);
        assert(k != s.last().0);
        assert(t.last() == s.last());
        assert(entries_map(s.drop_last()).insert(k, v).insert(s.last().0, s.last().1)
            =~= entries_map(s).insert(k, v));
    }
}

proof fn lemma_entries_map_remove<V>(s: Seq<(u64, V)>, i: int)
    requires
        entries_wf(s),
        0 <= i < s.len(),
    ensures
        entries_map(s.remove(i)) == entries_map(s).remove(s[i].0),
        entries_wf(s.remove(i)),
    decreases s.len(),
{
    let k = s[i].0;
    let t = s.remove(i);
    assert forall|a: int, b: int|
        0 <= a < t.len() && 0 <= b < t.len() && a != b implies (#[trigger] t[a]).0 != (
    #[trigger] t[b]).0 by {
        let a0 = if a < i {
            a
        } else {
            a + 1
        };
        let b0 = if b < i {
            b
        } else {
            b + 1
        };
        assert(t[a] == s[a0]);
        assert(t[b] == s[b0]);
    }
    if i == s.len() - 1 {
        assert(t =~= s.drop_last());
        lemma_dom_is_keys(s.drop_last());
        lemma_drop_last_wf(s);
        assert forall|a: int| 0 <= a < s.drop_last().len() implies (
        #[trigger] s.drop_last()[a]).0 != k by {
            assert(s.drop_last()[a] == s[a]);
        }
        assert(!has_key(s.drop_last(), k));
        assert(!entries_map(s.drop_last()).dom().contains(k));
        assert(entries_map(s.drop_last()) =~= entries_map(s).remove(k));
    } else {
        lemma_drop_last_wf(s);
        assert(t.drop_last() =~= s.drop_last().remove(i));
        assert(s.drop_last()[i] == s[i]);
        lemma_entries_map_remove(s.drop_last(), i);
        assert(k != s.last().0);
        assert(t.last() == s.last());
        assert(t.len() == s.len() - 1);
        assert(entries_map(t) == entries_map(t.drop_last()).insert(t.last().0, t.last().1));
        assert(entries_map(s.drop_last()).remove(k).insert(s.last().0, s.last().1)
            =~= entries_map(s).remove(k));
    }
}

/// An insertion-ordered table from slot ids to values, holding each key
/// at most once.
pub struct SlotTable<V> {
    entries: Vec<(u64, V)>,
}

impl<V> View for SlotTable<V> {
    type V = Map<u64, V>;

    closed spec fn view(&self) -> Map<u64, V> {
        entries_map(self.entries@)
    }
}

impl<V> SlotTable<V> {
    /// Well-formed: no key occurs twice.
    pub closed spec fn wf(&self) -> bool {
        entries_wf(self.entries@)
    }

    /// The keys in insertion order.
    pub closed spec fn spec_keys(&self) -> Seq<u64> {
        self.entries@.map_values(|e: (u64, V)| e.0)
    }

    /// The value of the `i`-th entry, in insertion order.
    pub closed spec fn spec_value_at(&self, i: int) -> V {
        self.entries@[i].1
    }

    /// An empty table.
    pub fn new() -> (r: SlotTable<V>)
        ensures
            r.wf(),
            r@ == Map::<u64, V>::empty(),
            r.spec_keys() == Seq::<u64>::empty(),
    {
        let r = SlotTable { entries: Vec::new() };
        proof {
            assert(r.spec_keys() =~= Seq::<u64>::empty());
        }
        r
    }

    /// The position of `k` among the entries, if present.
    fn index_of_key(&self, k: u64) -> (r: Option<usize>)
        requires
            self.wf(),
        ensures
            match r {
                Some(i) => i < self.entries@.len() && self.entries@[i as int].0 == k,
                None => !self@.dom().contains(k),
            },
    {
        proof {
            lemma_dom_is_keys(self.entries@);
        }
        let n = self.entries.len();
        let mut i: usize = 0;
        while i < n
            invariant
                n == self.entries@.len(),
                i <= n,
                forall|j: int| 0 <= j < i ==> (#[trigger] self.entries@[j]).0 != k,
            decreases n - i,
        {
            if self.entries[i].0 == k {
                return Some(i);
            }
            i = i + 1;
        }
        proof {
            assert(!has_key(self.entries@, k));
        }
        None
    }

    /// Whether the table holds `k`.
    pub fn contains_key(&self, k: u64) -> (r: bool)
        requires
            self.wf(),
        ensures
            r == self@.dom().contains(k),
    {
        match self.index_of_key(k) {
            Some(i) => {
                proof {
                    lemma_entries_map_at(self.entries@, i as int);
                }
                true
            },
            None => false,
        }
    }

    /// Read the value stored under `k`, if any.
    pub fn get(&self, k: u64) -> (r: Option<&V>)
        requires
            self.wf(),
        ensures
            match r {
                Some(v) => self@.dom().contains(k) && *v == self@[k],
                None => !self@.dom().contains(k),
            },
    {
        match self.index_of_key(k) {
            Some(i) => {
                proof {
                    lemma_entries_map_at(self.entries@, i as int);
                }
                Some(&self.entries[i].1)
            },
            None => None,
        }
    }

    /// Borrow the value stored under `k` mutably.
    pub fn get_mut(&mut self, k: u64) -> (r: &mut V)
        requires
            old(self).wf(),
            old(self)@.dom().contains(k),
        ensures
            *r == old(self)@[k],
            final(self).wf(),
            final(self)@ == old(self)@.insert(k, *final(r)),
    {
        let i = match self.index_of_key(k) {
            Some(i) => i,
            None => unreached(),
        };
        proof {
            lemma_entries_map_at(self.entries@, i as int);
            assert forall|v: V| #[trigger] entries_map(
                self.entries@.update(i as int, (k, v)),
            ) == entries_map(self.entries@).insert(k, v) && entries_wf(
                self.entries@.update(i as int, (k, v)),
            ) by {
                lemma_entries_map_update(self.entries@, i as int, v);
            }
        }
        &mut self.entries[i].1
    }

    /// Store `v` under `k`, returning the value previously there, if any.
    pub fn insert(&mut self, k: u64, v: V) -> (r: Option<V>)
        requires
            old(self).wf(),
        ensures
            final(self).wf(),
            final(self)@ == old(self)@.insert(k, v),
            match r {
                Some(w) => old(self)@.dom().contains(k) && w == old(self)@[k],
                None => !old(self)@.dom().contains(k),
            },
    {
        match self.index_of_key(k) {
            Some(i) => {
                proof {
                    lemma_entries_map_at(self.entries@, i as int);
                    lemma_entries_map_update(self.entries@, i as int, v);
                }
                let mut slot: (u64, V) = (k, v);
                self.entries.set_and_swap(i, &mut slot);
                Some(slot.1)
            },
            None => {
                proof {
                    lemma_dom_is_keys(self.entries@);
                }
                self.entries.push((k, v));
                proof {
                    let s = old(self).entries@;
                    let t = self.entries@;
                    assert(t.drop_last() =~= s);
                    assert(entries_map(t) == entries_map(s).insert(k, v));
                    assert forall|a: int, b: int|
                        0 <= a < t.len() && 0 <= b < t.len() && a != b implies (
                    #[trigger] t[a]).0 != (#[trigger] t[b]).0 by {
                        if a < t.len() - 1 && b < t.len() - 1 {
                            assert(t[a] == s[a]);
                            assert(t[b] == s[b]);
                        } else if a == t.len() - 1 {
                            assert(t[b] == s[b]);
                            assert(!has_key(s, k));
                        } else {
                            assert(t[a] == s[a]);
                            assert(!has_key(s, k));
                        }
                    }
                }
                None
            },
        }
    }

    /// Remove the entry under `k`, returning its value, if any.
    pub fn remove(&mut self, k: u64) -> (r: Option<V>)
        requires
            old(self).wf(),
        ensures
            final(self).wf(),
            final(self)@ == old(self)@.remove(k),
            match r {
                Some(w) => old(self)@.dom().contains(k) && w == old(self)@[k],
                None => !old(self)@.dom().contains(k) && final(self)@ == old(self)@,
            },
    {
        match self.index_of_key(k) {
            Some(i) => {
                proof {
                    lemma_entries_map_at(self.entries@, i as int);
                    lemma_entries_map_remove(self.entries@, i as int);
                }
                let e = self.entries.remove(i);
                Some(e.1)
            },
            None => {
                proof {
                    assert(entries_map(self.entries@).remove(k) =~= entries_map(self.entries@));
                }
                None
            },
        }
    }

    /// The number of entries.
    pub fn len(&self) -> (r: usize)
        requires
            self.wf(),
        ensures
            r == self@.dom().len(),
            r == self.spec_keys().len(),
    {
        proof {
            self.lemma_keys_describe_dom();
            assert(entries_map(self.entries@).dom() =~= self.spec_keys().to_set());
            self.spec_keys().unique_seq_to_set();
        }
        self.entries.len()
    }

    /// Whether the table is empty.
    pub fn is_empty(&self) -> (r: bool)
        requires
            self.wf(),
        ensures
            r == (self@.dom() == Set::<u64>::empty()),
            r == (self.spec_keys().len() == 0),
    {
        proof {
            lemma_dom_is_keys(self.entries@);
            if self.entries@.len() == 0 {
                assert(entries_map(self.entries@).dom() =~= Set::<u64>::empty());
            } else {
                assert(self.entries@[0].0 == self.entries@[0].0);
                assert(has_key(self.entries@, self.entries@[0].0));
                assert(entries_map(self.entries@).dom().contains(self.entries@[0].0));
            }
        }
        self.entries.is_empty()
    }

    /// The key of the `i`-th entry, in insertion order.
    pub fn key_at(&self, i: usize) -> (r: u64)
        requires
            self.wf(),
            i < self.spec_keys().len(),
        ensures
            r == self.spec_keys()[i as int],
            self@.dom().contains(r),
            self@[r] == self.spec_value_at(i as int),
    {
        proof {
            lemma_entries_map_at(self.entries@, i as int);
        }
        self.entries[i].0
    }

    /// The value of the `i`-th entry, in insertion order.
    pub fn value_at(&self, i: usize) -> (r: &V)
        requires
            self.wf(),
            i < self.spec_keys().len(),
        ensures
            *r == self.spec_value_at(i as int),
            self@.dom().contains(self.spec_keys()[i as int]),
            self@[self.spec_keys()[i as int]] == *r,
    {
        proof {
            lemma_entries_map_at(self.entries@, i as int);
        }
        &self.entries[i].1
    }

    /// Every key the table holds is listed by `spec_keys`, exactly once.
    pub proof fn lemma_keys_describe_dom(&self)
        requires
            self.wf(),
        ensures
            self.spec_keys().no_duplicates(),
            forall|k: u64| self.spec_keys().contains(k) <==> self@.dom().contains(k),
            forall|i: int|
                0 <= i < self.spec_keys().len() ==> self@.dom().contains(
                    #[trigger] self.spec_keys()[i],
                ) && self@[self.spec_keys()[i]] == self.spec_value_at(i),
    {
        lemma_dom_is_keys(self.entries@);
        let ks = self.spec_keys();
        assert(ks.len() == self.entries@.len());
        assert(forall|i: int| 0 <= i < ks.len() ==> ks[i] == (#[trigger] self.entries@[i]).0);
        assert forall|i: int| 0 <= i < ks.len() implies self@.dom().contains(#[trigger] ks[i])
            && self@[ks[i]] == self.spec_value_at(i) by {
            lemma_entries_map_at(self.entries@, i);
        }
        assert forall|k: u64| ks.contains(k) <==> self@.dom().contains(k) by {
            if ks.contains(k) {
                let i = choose|i: int| 0 <= i < ks.len() && ks[i] == k;
                assert(self.entries@[i].0 == k);
                assert(has_key(self.entries@, k));
                assert(self@.dom().contains(k));
            }
            if self@.dom().contains(k) {
                assert(has_key(self.entries@, k));
                let i = choose|i: int| 0 <= i < self.entries@.len() && (
                #[trigger] self.entries@[i]).0 == k;
                assert(ks[i] == k);
                assert(ks.contains(k));
            }
        }
    }
}

} // verus!
