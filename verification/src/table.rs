//! An association table keyed by `u128`, the shape in which the engine
//! keeps its mutable per-identifier state (names, decorations, overridden
//! constants).  Viewed as a `Map<u128, V>`; the entry list never holds a
//! key twice.

use vstd::prelude::*;

verus! {

use vstd::pervasive::VecAdditionalExecFns;

/// The map an entry sequence denotes: later entries win, though the table
/// never holds a key twice.
pub open spec fn assoc_map<V>(s: Seq<(u128, V)>) -> Map<u128, V>
    decreases s.len(),
{
    if s.len() == 0 {
        Map::empty()
    } else {
        assoc_map(s.drop_last()).insert(s.last().0, s.last().1)
    }
}

/// No two entries share a key.
pub open spec fn distinct_keys<V>(s: Seq<(u128, V)>) -> bool {
    forall|i: int, j: int| 0 <= i < j < s.len() ==> s[i].0 != s[j].0
}

proof fn lemma_assoc_map_absent<V>(s: Seq<(u128, V)>, k: u128)
    requires
        forall|i: int| 0 <= i < s.len() ==> s[i].0 != k,
    ensures
        !assoc_map(s).dom().contains(k),
    decreases s.len(),
{
    if s.len() > 0 {
        lemma_assoc_map_absent(s.drop_last(), k);
    }
}

proof fn lemma_assoc_map_present<V>(s: Seq<(u128, V)>, i: int)
    requires
        distinct_keys(s),
        0 <= i < s.len(),
    ensures
        assoc_map(s).dom().contains(s[i].0),
        assoc_map(s)[s[i].0] == s[i].1,
    decreases s.len(),
{
    if i < s.len() - 1 {
        lemma_assoc_map_present(s.drop_last(), i);
    }
}

/// An association table keyed by `u128`.
pub struct IdTable<V> {
    entries: Vec<(u128, V)>,
}

impl<V> View for IdTable<V> {
    type V = Map<u128, V>;

    /// A table is the map from each stored key to its value.
    closed spec fn view(&self) -> Map<u128, V> {
        assoc_map(self.entries@)
    }
}

impl<V> IdTable<V> {
    #[verifier::type_invariant]
    spec fn wf(self) -> bool {
        distinct_keys(self.entries@)
    }

    /// An empty table.
    pub fn new() -> (t: Self)
        ensures
            t@ == Map::<u128, V>::empty(),
    {
        IdTable { entries: Vec::new() }
    }

    /// The position of the entry with the given key, if any.
    fn position(&self, k: u128) -> (r: Option<usize>)
        ensures
            r matches Some(i) ==> i < self.entries@.len() && self.entries@[i as int].0 == k,
            r is None ==> forall|i: int| 0 <= i < self.entries@.len() ==> self.entries@[i].0 != k,
    {
        let n = self.entries.len();
        for i in 0..n
            invariant
                n == self.entries@.len(),
                forall|j: int| 0 <= j < i ==> self.entries@[j].0 != k,
        {
            if self.entries[i].0 == k {
                return Some(i);
            }
        }
        None
    }

    /// The value stored under a key, if any.
    pub fn get(&self, k: u128) -> (r: Option<&V>)
        ensures
            r matches Some(v) ==> self@.dom().contains(k) && *v == self@[k],
            r is None ==> !self@.dom().contains(k),
    {
        proof {
            use_type_invariant(self);
        }
        match self.position(k) {
            Some(i) => {
                proof {
                    lemma_assoc_map_present(self.entries@, i as int);
                }
                Some(&self.entries[i].1)
            },
            None => {
                proof {
                    lemma_assoc_map_absent(self.entries@, k);
                }
                None
            },
        }
    }

    /// Stores a value under a key, replacing any value already there.
    pub fn set(&mut self, k: u128, v: V)
        ensures
            final(self)@ == old(self)@.insert(k, v),
    {
        proof {
            use_type_invariant(&*self);
        }
        let pos = self.position(k);
        let mut entries: Vec<(u128, V)> = Vec::new();
        core::mem::swap(&mut entries, &mut self.entries);
        match pos {
            Some(i) => {
                entries.set(i, (k, v));
                proof {
                    lemma_assoc_map_update(old(self).entries@, i as int, v);
                }
            },
            None => {
                entries.push((k, v));
                proof {
                    assert(entries@.drop_last() =~= old(self).entries@);
                }
            },
        }
        self.entries = entries;
    }

    /// Removes the value stored under a key, if any.
    pub fn remove(&mut self, k: u128)
        ensures
            final(self)@ == old(self)@.remove(k),
    {
        proof {
            use_type_invariant(&*self);
        }
        let pos = self.position(k);
        match pos {
            Some(i) => {
                let mut entries: Vec<(u128, V)> = Vec::new();
                core::mem::swap(&mut entries, &mut self.entries);
                entries.remove(i);
                proof {
                    lemma_assoc_map_remove(old(self).entries@, i as int);
                }
                self.entries = entries;
            },
            None => {
                proof {
                    lemma_assoc_map_absent(self.entries@, k);
                    assert(self@ =~= self@.remove(k));
                }
            },
        }
    }
}

proof fn lemma_assoc_map_update<V>(s: Seq<(u128, V)>, i: int, v: V)
    requires
        distinct_keys(s),
        0 <= i < s.len(),
    ensures
        assoc_map(s.update(i, (s[i].0, v))) == assoc_map(s).insert(s[i].0, v),
    decreases s.len(),
{
    let k = s[i].0;
    let t = s.update(i, (k, v));
    if i == s.len() - 1 {
        assert(t.drop_last() =~= s.drop_last());
        assert(assoc_map(t) =~= assoc_map(s).insert(k, v));
    } else {
        lemma_assoc_map_update(s.drop_last(), i, v);
        assert(t.drop_last() =~= s.drop_last().update(i, (k, v)));
        assert(t.last() == s.last());
        assert(assoc_map(t) == assoc_map(s.drop_last()).insert(k, v).insert(s.last().0, s.last().1));
        assert(assoc_map(t) =~= assoc_map(s).insert(k, v));
    }
}

proof fn lemma_assoc_map_remove<V>(s: Seq<(u128, V)>, i: int)
    requires
        distinct_keys(s),
        0 <= i < s.len(),
    ensures
        assoc_map(s.remove(i)) == assoc_map(s).remove(s[i].0),
    decreases s.len(),
{
    let k = s[i].0;
    let t = s.remove(i);
    if i == s.len() - 1 {
        assert(t =~= s.drop_last());
        lemma_assoc_map_absent(s.drop_last(), k);
        assert(assoc_map(t) =~= assoc_map(s).remove(k));
    } else {
        lemma_assoc_map_remove(s.drop_last(), i);
        assert(t.drop_last() =~= s.drop_last().remove(i));
        assert(t.last() == s.last());
        assert(assoc_map(t) == assoc_map(s.drop_last()).remove(k).insert(s.last().0, s.last().1));
        assert(assoc_map(t) =~= assoc_map(s).remove(k));
    }
}

/// The map with every value replaced by its ghost view.
pub open spec fn vmap<V: View>(m: Map<u128, V>) -> Map<u128, V::V> {
    Map::new(|k: u128| m.dom().contains(k), |k: u128| m[k]@)
}

pub proof fn lemma_vmap_empty<V: View>()
    ensures
        vmap(Map::<u128, V>::empty()) == Map::<u128, V::V>::empty(),
{
    assert(vmap(Map::<u128, V>::empty()) =~= Map::<u128, V::V>::empty());
}

pub proof fn lemma_vmap_insert<V: View>(m: Map<u128, V>, k: u128, v: V)
    ensures
        vmap(m.insert(k, v)) == vmap(m).insert(k, v@),
{
    assert(vmap(m.insert(k, v)) =~= vmap(m).insert(k, v@));
}

pub proof fn lemma_vmap_remove<V: View>(m: Map<u128, V>, k: u128)
    ensures
        vmap(m.remove(k)) == vmap(m).remove(k),
{
    assert(vmap(m.remove(k)) =~= vmap(m).remove(k));
}

pub proof fn lemma_vmap_index<V: View>(m: Map<u128, V>, k: u128)
    requires
        m.dom().contains(k),
    ensures
        vmap(m).dom().contains(k),
        vmap(m)[k] == m[k]@,
{
}

/// The map left after applying the entries in order onto `m`.
pub open spec fn apply_entries<V>(m: Map<u128, V>, s: Seq<(u128, V)>) -> Map<u128, V>
    decreases s.len(),
{
    if s.len() == 0 {
        m
    } else {
        apply_entries(m.insert(s[0].0, s[0].1), s.drop_first())
    }
}

proof fn lemma_apply_entries_push<V>(m: Map<u128, V>, s: Seq<(u128, V)>, e: (u128, V))
    ensures
        apply_entries(m, s.push(e)) == apply_entries(m, s).insert(e.0, e.1),
    decreases s.len(),
{
    if s.len() == 0 {
        assert(s.push(e)[0] == e);
        assert(s.push(e).drop_first() =~= Seq::<(u128, V)>::empty());
        assert(apply_entries(m, s.push(e)) == apply_entries(
            m.insert(e.0, e.1),
            s.push(e).drop_first(),
        ));
        assert(apply_entries(m.insert(e.0, e.1), s.push(e).drop_first()) == m.insert(e.0, e.1));
        assert(apply_entries(m, s) == m);
    } else {
        lemma_apply_entries_push(m.insert(s[0].0, s[0].1), s.drop_first(), e);
        assert(s.push(e)[0] == s[0]);
        assert(s.push(e).drop_first() =~= s.drop_first().push(e));
        assert(apply_entries(m, s.push(e)) == apply_entries(
            m.insert(s[0].0, s[0].1),
            s.drop_first().push(e),
        ));
        assert(apply_entries(m, s) == apply_entries(m.insert(s[0].0, s[0].1), s.drop_first()));
    }
}

proof fn lemma_apply_entries_is_assoc_map<V>(s: Seq<(u128, V)>)
    ensures
        apply_entries(Map::<u128, V>::empty(), s) == assoc_map(s),
    decreases s.len(),
{
    if s.len() > 0 {
        lemma_apply_entries_is_assoc_map(s.drop_last());
        lemma_apply_entries_push(Map::<u128, V>::empty(), s.drop_last(), s.last());
        assert(s.drop_last().push(s.last()) =~= s);
    }
}

impl<V> IdTable<V> {
    /// The table holding the given entries; a later entry wins over an
    /// earlier one with the same key.
    pub fn from_entries(entries: Vec<(u128, V)>) -> (t: Self)
        ensures
            t@ == assoc_map(entries@),
    {
        let ghost all = entries@;
        let mut entries = entries;
        let mut t = IdTable::new();
        proof {
            lemma_apply_entries_is_assoc_map(all);
        }
        while entries.len() > 0
            invariant
                apply_entries(t@, entries@) == assoc_map(all),
            decreases entries.len(),
        {
            let (k, v) = entries.remove(0);
            t.set(k, v);
        }
        t
    }
}

/// Every value the denoted map holds comes from one of the entries.
pub proof fn lemma_assoc_map_from_entry<V>(s: Seq<(u128, V)>, k: u128)
    requires
        assoc_map(s).dom().contains(k),
    ensures
        exists|i: int|
            0 <= i < s.len() && #[trigger] s[i].0 == k && assoc_map(s)[k] == s[i].1,
    decreases s.len(),
{
    if s.len() > 0 {
        if s.last().0 == k {
            assert(s[s.len() - 1].0 == k);
        } else {
            lemma_assoc_map_from_entry(s.drop_last(), k);
            let i = choose|i: int|
                0 <= i < s.drop_last().len() && #[trigger] s.drop_last()[i].0 == k
                    && assoc_map(s.drop_last())[k] == s.drop_last()[i].1;
            assert(s[i].0 == k);
        }
    }
}

} // verus!
