//! The index from validator session keys to the peers that announced them.
//!
//! The index keeps its entries in a vector in which no key occurs twice, so
//! that it is a map from keys to nodes. Its view is the map from each key's
//! bytes to its node.

use vstd::prelude::*;

use crate::primitives::{bytes32_eq, NodeIndex, SessionKey};

verus! {

broadcast use vstd::array::group_array_axioms;

/// The map that a sequence of entries describes; a later entry wins.
pub open spec fn entries_map(s: Seq<(SessionKey, NodeIndex)>) -> Map<Seq<u8>, NodeIndex>
    decreases s.len(),
{
    if s.len() == 0 {
        Map::empty()
    } else {
        entries_map(s.drop_last()).insert(s.last().0@, s.last().1)
    }
}

/// No key occurs in two entries.
pub open spec fn keys_unique(s: Seq<(SessionKey, NodeIndex)>) -> bool {
    forall|i: int, j: int| 0 <= i < s.len() && 0 <= j < s.len() && i != j ==> s[i].0@ != s[j].0@
}

proof fn lemma_entries_map_contains(s: Seq<(SessionKey, NodeIndex)>, k: Seq<u8>)
    ensures
        entries_map(s).contains_key(k) <==> exists|i: int| 0 <= i < s.len() && s[i].0@ == k,
    decreases s.len(),
{
    if s.len() > 0 {
        lemma_entries_map_contains(s.drop_last(), k);
        if entries_map(s).contains_key(k) && s.last().0@ != k {
            let i = choose|i: int| 0 <= i < s.drop_last().len() && s.drop_last()[i].0@ == k;
            assert(s[i].0@ == k);
        }
        if exists|i: int| 0 <= i < s.len() && s[i].0@ == k {
            let i = choose|i: int| 0 <= i < s.len() && s[i].0@ == k;
            if i < s.len() - 1 {
                assert(s.drop_last()[i].0@ == k);
            }
        }
    }
}

proof fn lemma_entries_map_value(s: Seq<(SessionKey, NodeIndex)>, i: int)
    requires
        keys_unique(s),
        0 <= i < s.len(),
    ensures
        entries_map(s).contains_key(s[i].0@),
        entries_map(s)[s[i].0@] == s[i].1,
    decreases s.len(),
{
    if i < s.len() - 1 {
        let d = s.drop_last();
        assert(d[i] == s[i]);
        assert(keys_unique(d));
        lemma_entries_map_value(d, i);
        assert(s.last().0@ != s[i].0@);
    }
}

proof fn lemma_entries_map_update(s: Seq<(SessionKey, NodeIndex)>, i: int, e: (SessionKey, NodeIndex))
    requires
        keys_unique(s),
        0 <= i < s.len(),
        s[i].0@ == e.0@,
    ensures
        keys_unique(s.update(i, e)),
        entries_map(s.update(i, e)) == entries_map(s).insert(e.0@, e.1),
    decreases s.len(),
{
    let u = s.update(i, e);
    assert(u.drop_last().len() == s.drop_last().len());
    if i == s.len() - 1 {
        assert(u.drop_last() =~= s.drop_last());
        assert(entries_map(u) =~= entries_map(s).insert(e.0@, e.1));
    } else {
        let d = s.drop_last();
        assert(u.drop_last() =~= d.update(i, e));
        assert(keys_unique(d));
        lemma_entries_map_update(d, i, e);
        assert(s.last().0@ != e.0@);
        assert(u.last() == s.last());
        assert(entries_map(u) =~= entries_map(s).insert(e.0@, e.1));
    }
}

proof fn lemma_entries_map_remove(s: Seq<(SessionKey, NodeIndex)>, i: int)
    requires
        keys_unique(s),
        0 <= i < s.len(),
    ensures
        keys_unique(s.remove(i)),
        entries_map(s.remove(i)) == entries_map(s).remove(s[i].0@),
    decreases s.len(),
{
    let r = s.remove(i);
    let d = s.drop_last();
    assert(keys_unique(d));
    if i == s.len() - 1 {
        assert(r =~= d);
        lemma_entries_map_contains(d, s[i].0@);
        assert(!entries_map(d).contains_key(s[i].0@)) by {
            if exists|j: int| 0 <= j < d.len() && d[j].0@ == s[i].0@ {
                let j = choose|j: int| 0 <= j < d.len() && d[j].0@ == s[i].0@;
                assert(s[j].0@ == s[i].0@);
            }
        }
        assert(entries_map(r) =~= entries_map(s).remove(s[i].0@));
    } else {
        assert(r.drop_last() =~= d.remove(i));
        assert(r.last() == s.last());
        assert(d[i] == s[i]);
        lemma_entries_map_remove(d, i);
        assert(s.last().0@ != s[i].0@);
        assert(entries_map(r) =~= entries_map(s).remove(s[i].0@));
    }
}

/// The session keys announced by validators, each with the peer that announced it.
pub struct ValidatorMap {
    entries: Vec<(SessionKey, NodeIndex)>,
}

impl View for ValidatorMap {
    type V = Map<Seq<u8>, NodeIndex>;

    closed spec fn view(&self) -> Map<Seq<u8>, NodeIndex> {
        entries_map(self.entries@)
    }
}

impl ValidatorMap {
    /// The index is well formed: no key occurs in two entries.
    pub closed spec fn wf(&self) -> bool {
        keys_unique(self.entries@)
    }

    /// An empty index.
    pub fn new() -> (m: Self)
        ensures
            m.wf(),
            m@ == Map::<Seq<u8>, NodeIndex>::empty(),
    {
        ValidatorMap { entries: Vec::new() }
    }

    fn find(&self, key: &SessionKey) -> (pos: Option<usize>)
        requires
            self.wf(),
        ensures
            match pos {
                Some(i) => i < self.entries@.len() && self.entries@[i as int].0@ == key@,
                None => !self@.contains_key(key@),
            },
    {
        let mut i: usize = 0;
        while i < self.entries.len()
            invariant
                i <= self.entries@.len(),
                forall|j: int| 0 <= j < i ==> self.entries@[j].0@ != key@,
            decreases self.entries@.len() - i,
        {
            if bytes32_eq(&self.entries[i].0, key) {
                return Some(i);
            }
            i = i + 1;
        }
        proof {
            lemma_entries_map_contains(self.entries@, key@);
        }
        None
    }

    /// The node that announced `key`, if any.
    pub fn get(&self, key: &SessionKey) -> (node: Option<NodeIndex>)
        requires
            self.wf(),
        ensures
            node == (if self@.contains_key(key@) { Some(self@[key@]) } else { None::<NodeIndex> }),
    {
        match self.find(key) {
            Some(i) => {
                proof {
                    lemma_entries_map_value(self.entries@, i as int);
                }
                Some(self.entries[i].1)
            },
            None => None,
        }
    }

    /// Records that `key` belongs to `node`, replacing any earlier owner.
    pub fn insert(&mut self, key: SessionKey, node: NodeIndex)
        requires
            old(self).wf(),
        ensures
            final(self).wf(),
            final(self)@ == old(self)@.insert(key@, node),
    {
        match self.find(&key) {
            Some(i) => {
                proof {
                    lemma_entries_map_update(self.entries@, i as int, (key, node));
                }
                self.entries.set(i, (key, node));
            },
            None => {
                proof {
                    lemma_entries_map_contains(self.entries@, key@);
                    assert(self.entries@.push((key, node)).drop_last() =~= self.entries@);
                }
                self.entries.push((key, node));
            },
        }
    }

    /// Forgets `key`, if it was present.
    pub fn remove(&mut self, key: &SessionKey)
        requires
            old(self).wf(),
        ensures
            final(self).wf(),
            final(self)@ == old(self)@.remove(key@),
    {
        match self.find(key) {
            Some(i) => {
                proof {
                    lemma_entries_map_remove(self.entries@, i as int);
                }
                self.entries.remove(i);
            },
            None => {
                assert(self@.remove(key@) =~= self@);
            },
        }
    }
}

} // verus!
