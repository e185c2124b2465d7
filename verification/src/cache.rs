//! Small caches of loaded lists: one keyed by a source, one keyed by a
//! source and an item id.  Each holds at most one list per key, in a
//! vector whose keys are kept distinct: the keys are not integers, and
//! vstd specifies std's `HashMap` only for keys whose hashing and
//! equality it models.
use vstd::prelude::*;
use crate::model::SourceId;

verus! {

/// Lists cached per source.
pub struct SourceCache<T> {
    entries: Vec<(SourceId, Vec<T>)>,
}

impl<T> SourceCache<T> {
    #[verifier::type_invariant]
    spec fn keys_unique(self) -> bool {
        forall|i: int, j: int|
            0 <= i < j < self.entries@.len() ==> #[trigger] self.entries@[i].0
                != #[trigger] self.entries@[j].0
    }

    spec fn has_key(self, key: SourceId) -> bool {
        exists|i: int| 0 <= i < self.entries@.len() && #[trigger] self.entries@[i].0 == key
    }

    spec fn slot(self, key: SourceId) -> int {
        choose|i: int| 0 <= i < self.entries@.len() && #[trigger] self.entries@[i].0 == key
    }

    /// The cached lists by source.
    pub closed spec fn view(self) -> Map<SourceId, Seq<T>> {
        Map::new(|key: SourceId| self.has_key(key), |key: SourceId| self.entries@[self.slot(key)].1@)
    }

    proof fn lemma_slot(self, i: int)
        requires
            self.keys_unique(),
            0 <= i < self.entries@.len(),
        ensures
            self@.contains_key(self.entries@[i].0),
            self.slot(self.entries@[i].0) == i,
            self@[self.entries@[i].0] == self.entries@[i].1@,
    {
        let key = self.entries@[i].0;
        assert(self.has_key(key));
        let j = self.slot(key);
        if j != i {
            if j < i {
                assert(self.entries@[j].0 != self.entries@[i].0);
            } else {
                assert(self.entries@[i].0 != self.entries@[j].0);
            }
        }
    }

    /// An empty cache.
    pub fn new() -> (r: SourceCache<T>)
        ensures
            r@ == Map::<SourceId, Seq<T>>::empty(),
    {
        let r = SourceCache { entries: Vec::new() };
        assert(r@ =~= Map::<SourceId, Seq<T>>::empty());
        r
    }

    fn find(&self, key: SourceId) -> (r: Option<usize>)
        ensures
            match r {
                Some(i) => i < self.entries@.len() && self.entries@[i as int].0 == key,
                None => !self.has_key(key),
            },
    {
        let mut i: usize = 0;
        while i < self.entries.len()
            invariant
                i <= self.entries@.len(),
                forall|k: int| 0 <= k < i ==> #[trigger] self.entries@[k].0 != key,
            decreases self.entries.len() - i,
        {
            if self.entries[i].0 == key {
                return Some(i);
            }
            i = i + 1;
        }
        None
    }

    /// The list cached for `key`, if any.
    pub fn get(&self, key: SourceId) -> (r: Option<&Vec<T>>)
        ensures
            match r {
                Some(v) => self@.contains_key(key) && v@ == self@[key],
                None => !self@.contains_key(key),
            },
    {
        proof {
            use_type_invariant(self);
        }
        match self.find(key) {
            Some(i) => {
                proof {
                    self.lemma_slot(i as int);
                }
                Some(&self.entries[i].1)
            },
            None => None,
        }
    }

    /// Caches `value` for `key`, replacing what was cached for it.
    pub fn insert(&mut self, key: SourceId, value: Vec<T>)
        ensures
            final(self)@ == old(self)@.insert(key, value@),
    {
        proof {
            use_type_invariant(&*self);
        }
        let ghost before = *self;
        let ghost value_view = value@;
        match self.find(key) {
            Some(i) => {
                let mut entries = Vec::new();
                std::mem::swap(&mut entries, &mut self.entries);
                entries.set(i, (key, value));
                self.entries = entries;
                proof {
                    assert forall|a: int, b: int|
                        0 <= a < b < self.entries@.len() implies #[trigger] self.entries@[a].0
                        != #[trigger] self.entries@[b].0 by {
                        assert(before.entries@[a].0 != before.entries@[b].0);
                    }
                    assert forall|k: SourceId|
                        #![trigger self@.dom().contains(k)]
                        #![trigger before@.insert(key, value_view).dom().contains(k)]
                        self@.dom().contains(k) == before@.insert(key, value_view).dom().contains(k)
                            && (self@.dom().contains(k) ==> self@[k] == before@.insert(
                            key,
                            value_view,
                        )[k]) by {
                        if before.has_key(k) {
                            let j = before.slot(k);
                            before.lemma_slot(j);
                            self.lemma_slot(j);
                        }
                        if self.has_key(k) {
                            let j = self.slot(k);
                            self.lemma_slot(j);
                            if k != key {
                                before.lemma_slot(j);
                            }
                        }
                    }
                    assert(self@.dom() =~= before@.insert(key, value_view).dom());
                    assert(self@ =~= before@.insert(key, value_view));
                }
            },
            None => {
                let mut entries = Vec::new();
                std::mem::swap(&mut entries, &mut self.entries);
                entries.push((key, value));
                self.entries = entries;
                proof {
                    let n = before.entries@.len() as int;
                    assert forall|a: int, b: int|
                        0 <= a < b < self.entries@.len() implies #[trigger] self.entries@[a].0
                        != #[trigger] self.entries@[b].0 by {
                        if b == n {
                            assert(before.entries@[a].0 == self.entries@[a].0);
                        } else {
                            assert(before.entries@[a].0 != before.entries@[b].0);
                        }
                    }
                    assert forall|k: SourceId|
                        #![trigger self@.dom().contains(k)]
                        #![trigger before@.insert(key, value_view).dom().contains(k)]
                        self@.dom().contains(k) == before@.insert(key, value_view).dom().contains(k)
                            && (self@.dom().contains(k) ==> self@[k] == before@.insert(
                            key,
                            value_view,
                        )[k]) by {
                        if before.has_key(k) {
                            let j = before.slot(k);
                            before.lemma_slot(j);
                            self.lemma_slot(j);
                        }
                        if self.has_key(k) {
                            let j = self.slot(k);
                            self.lemma_slot(j);
                            if j < n {
                                before.lemma_slot(j);
                            }
                        }
                        if k == key {
                            self.lemma_slot(n);
                        }
                    }
                    assert(self@.dom() =~= before@.insert(key, value_view).dom());
                    assert(self@ =~= before@.insert(key, value_view));
                }
            },
        }
    }

    /// Drops what is cached for `key`.
    pub fn remove(&mut self, key: SourceId)
        ensures
            final(self)@ == old(self)@.remove(key),
    {
        proof {
            use_type_invariant(&*self);
        }
        let ghost before = *self;
        match self.find(key) {
            Some(i) => {
                let mut entries = Vec::new();
                std::mem::swap(&mut entries, &mut self.entries);
                entries.remove(i);
                self.entries = entries;
                proof {
                    let old_entries = before.entries@;
                    assert(self.entries@ =~= old_entries.subrange(0, i as int) + old_entries.subrange(
                        i + 1,
                        old_entries.len() as int,
                    ));
                    assert forall|a: int, b: int|
                        0 <= a < b < self.entries@.len() implies #[trigger] self.entries@[a].0
                        != #[trigger] self.entries@[b].0 by {
                        let a0 = if a < i {
                            a
                        } else {
                            a + 1
                        };
                        let b0 = if b < i {
                            b
                        } else {
                            b + 1
                        };
                        assert(old_entries[a0].0 != old_entries[b0].0);
                    }
                    assert forall|k: SourceId|
                        #![trigger self@.dom().contains(k)]
                        #![trigger before@.remove(key).dom().contains(k)]
                        self@.dom().contains(k) == before@.remove(key).dom().contains(k) && (
                        self@.dom().contains(k) ==> self@[k] == before@.remove(key)[k]) by {
                        if before.has_key(k) && k != key {
                            let j = before.slot(k);
                            before.lemma_slot(j);
                            if j < i {
                                self.lemma_slot(j);
                            } else {
                                before.lemma_slot(i as int);
                                assert(j != i);
                                self.lemma_slot(j - 1);
                            }
                        }
                        if self.has_key(k) {
                            let j = self.slot(k);
                            self.lemma_slot(j);
                            let j0 = if j < i {
                                j
                            } else {
                                j + 1
                            };
                            before.lemma_slot(j0);
                            before.lemma_slot(i as int);
                        }
                    }
                    assert(self@.dom() =~= before@.remove(key).dom());
                    assert(self@ =~= before@.remove(key));
                }
            },
            None => {
                proof {
                    assert(self@.dom() =~= before@.remove(key).dom());
                    assert(self@ =~= before@.remove(key));
                }
            },
        }
    }
}

/// A list cache key: a source and an item id on it.
pub open spec fn item_key(source: SourceId, id: Seq<char>) -> (SourceId, Seq<char>) {
    (source, id)
}

/// Lists cached per (source, item id).
pub struct ItemCache<T> {
    entries: Vec<(SourceId, String, Vec<T>)>,
}

impl<T> ItemCache<T> {
    #[verifier::type_invariant]
    spec fn keys_unique(self) -> bool {
        forall|i: int, j: int|
            0 <= i < j < self.entries@.len() ==> Self::key_of(#[trigger] self.entries@[i])
                != Self::key_of(#[trigger] self.entries@[j])
    }

    spec fn key_of(entry: (SourceId, String, Vec<T>)) -> (SourceId, Seq<char>) {
        (entry.0, entry.1@)
    }

    spec fn has_key(self, key: (SourceId, Seq<char>)) -> bool {
        exists|i: int|
            0 <= i < self.entries@.len() && Self::key_of(#[trigger] self.entries@[i]) == key
    }

    spec fn slot(self, key: (SourceId, Seq<char>)) -> int {
        choose|i: int| 0 <= i < self.entries@.len() && Self::key_of(#[trigger] self.entries@[i]) == key
    }

    /// The cached lists by (source, item id).
    pub closed spec fn view(self) -> Map<(SourceId, Seq<char>), Seq<T>> {
        Map::new(
            |key: (SourceId, Seq<char>)| self.has_key(key),
            |key: (SourceId, Seq<char>)| self.entries@[self.slot(key)].2@,
        )
    }

    proof fn lemma_slot(self, i: int)
        requires
            self.keys_unique(),
            0 <= i < self.entries@.len(),
        ensures
            self@.contains_key(Self::key_of(self.entries@[i])),
            self.slot(Self::key_of(self.entries@[i])) == i,
            self@[Self::key_of(self.entries@[i])] == self.entries@[i].2@,
    {
        let key = Self::key_of(self.entries@[i]);
        assert(self.has_key(key));
        let j = self.slot(key);
        if j != i {
            if j < i {
                assert(Self::key_of(self.entries@[j]) != Self::key_of(self.entries@[i]));
            } else {
                assert(Self::key_of(self.entries@[i]) != Self::key_of(self.entries@[j]));
            }
        }
    }

    /// An empty cache.
    pub fn new() -> (r: ItemCache<T>)
        ensures
            r@ == Map::<(SourceId, Seq<char>), Seq<T>>::empty(),
    {
        let r = ItemCache { entries: Vec::new() };
        assert(r@ =~= Map::<(SourceId, Seq<char>), Seq<T>>::empty());
        r
    }

    fn find(&self, source: SourceId, id: &String) -> (r: Option<usize>)
        ensures
            match r {
                Some(i) => i < self.entries@.len() && Self::key_of(self.entries@[i as int]) == (
                source,
                id@,
                ),
                None => !self.has_key((source, id@)),
            },
    {
        let mut i: usize = 0;
        while i < self.entries.len()
            invariant
                i <= self.entries@.len(),
                forall|k: int| 0 <= k < i ==> Self::key_of(#[trigger] self.entries@[k]) != (source, id@),
            decreases self.entries.len() - i,
        {
            if self.entries[i].0 == source && self.entries[i].1 == *id {
                return Some(i);
            }
            i = i + 1;
        }
        None
    }

    /// The list cached for (`source`, `id`), if any.
    pub fn get(&self, source: SourceId, id: &String) -> (r: Option<&Vec<T>>)
        ensures
            match r {
                Some(v) => self@.contains_key((source, id@)) && v@ == self@[(source, id@)],
                None => !self@.contains_key((source, id@)),
            },
    {
        proof {
            use_type_invariant(self);
        }
        match self.find(source, id) {
            Some(i) => {
                proof {
                    self.lemma_slot(i as int);
                }
                Some(&self.entries[i].2)
            },
            None => None,
        }
    }

    /// Caches `value` for (`source`, `id`), replacing what was cached.
    pub fn insert(&mut self, source: SourceId, id: String, value: Vec<T>)
        ensures
            final(self)@ == old(self)@.insert((source, id@), value@),
    {
        proof {
            use_type_invariant(&*self);
        }
        let ghost before = *self;
        let ghost value_view = value@;
        let ghost key = (source, id@);
        match self.find(source, &id) {
            Some(i) => {
                let mut entries = Vec::new();
                std::mem::swap(&mut entries, &mut self.entries);
                entries.set(i, (source, id, value));
                self.entries = entries;
                proof {
                    assert forall|a: int, b: int|
                        0 <= a < b < self.entries@.len() implies Self::key_of(
                        #[trigger] self.entries@[a],
                    ) != Self::key_of(#[trigger] self.entries@[b]) by {
                        assert(Self::key_of(before.entries@[a]) != Self::key_of(before.entries@[b]));
                    }
                    assert forall|k: (SourceId, Seq<char>)|
                        #![trigger self@.dom().contains(k)]
                        #![trigger before@.insert(key, value_view).dom().contains(k)]
                        self@.dom().contains(k) == before@.insert(key, value_view).dom().contains(k)
                            && (self@.dom().contains(k) ==> self@[k] == before@.insert(
                            key,
                            value_view,
                        )[k]) by {
                        if before.has_key(k) {
                            let j = before.slot(k);
                            before.lemma_slot(j);
                            self.lemma_slot(j);
                        }
                        if self.has_key(k) {
                            let j = self.slot(k);
                            self.lemma_slot(j);
                            if k != key {
                                before.lemma_slot(j);
                            }
                        }
                    }
                    assert(self@.dom() =~= before@.insert(key, value_view).dom());
                    assert(self@ =~= before@.insert(key, value_view));
                }
            },
            None => {
                let mut entries = Vec::new();
                std::mem::swap(&mut entries, &mut self.entries);
                entries.push((source, id, value));
                self.entries = entries;
                proof {
                    let n = before.entries@.len() as int;
                    assert forall|a: int, b: int|
                        0 <= a < b < self.entries@.len() implies Self::key_of(
                        #[trigger] self.entries@[a],
                    ) != Self::key_of(#[trigger] self.entries@[b]) by {
                        if b == n {
                            assert(Self::key_of(before.entries@[a]) == Self::key_of(
                                self.entries@[a],
                            ));
                        } else {
                            assert(Self::key_of(before.entries@[a]) != Self::key_of(
                                before.entries@[b],
                            ));
                        }
                    }
                    assert forall|k: (SourceId, Seq<char>)|
                        #![trigger self@.dom().contains(k)]
                        #![trigger before@.insert(key, value_view).dom().contains(k)]
                        self@.dom().contains(k) == before@.insert(key, value_view).dom().contains(k)
                            && (self@.dom().contains(k) ==> self@[k] == before@.insert(
                            key,
                            value_view,
                        )[k]) by {
                        if before.has_key(k) {
                            let j = before.slot(k);
                            before.lemma_slot(j);
                            self.lemma_slot(j);
                        }
                        if self.has_key(k) {
                            let j = self.slot(k);
                            self.lemma_slot(j);
                            if j < n {
                                before.lemma_slot(j);
                            }
                        }
                        if k == key {
                            self.lemma_slot(n);
                        }
                    }
                    assert(self@.dom() =~= before@.insert(key, value_view).dom());
                    assert(self@ =~= before@.insert(key, value_view));
                }
            },
        }
    }

    /// Drops what is cached for (`source`, `id`).
    pub fn remove(&mut self, source: SourceId, id: &String)
        ensures
            final(self)@ == old(self)@.remove((source, id@)),
    {
        proof {
            use_type_invariant(&*self);
        }
        let ghost before = *self;
        let ghost key = (source, id@);
        match self.find(source, id) {
            Some(i) => {
                let mut entries = Vec::new();
                std::mem::swap(&mut entries, &mut self.entries);
                entries.remove(i);
                self.entries = entries;
                proof {
                    let old_entries = before.entries@;
                    assert(self.entries@ =~= old_entries.subrange(0, i as int) + old_entries.subrange(
                        i + 1,
                        old_entries.len() as int,
                    ));
                    assert forall|a: int, b: int|
                        0 <= a < b < self.entries@.len() implies Self::key_of(
                        #[trigger] self.entries@[a],
                    ) != Self::key_of(#[trigger] self.entries@[b]) by {
                        let a0 = if a < i {
                            a
                        } else {
                            a + 1
                        };
                        let b0 = if b < i {
                            b
                        } else {
                            b + 1
                        };
                        assert(Self::key_of(old_entries[a0]) != Self::key_of(old_entries[b0]));
                    }
                    assert forall|k: (SourceId, Seq<char>)|
                        #![trigger self@.dom().contains(k)]
                        #![trigger before@.remove(key).dom().contains(k)]
                        self@.dom().contains(k) == before@.remove(key).dom().contains(k) && (
                        self@.dom().contains(k) ==> self@[k] == before@.remove(key)[k]) by {
                        if before.has_key(k) && k != key {
                            let j = before.slot(k);
                            before.lemma_slot(j);
                            if j < i {
                                self.lemma_slot(j);
                            } else {
                                before.lemma_slot(i as int);
                                assert(j != i);
                                self.lemma_slot(j - 1);
                            }
                        }
                        if self.has_key(k) {
                            let j = self.slot(k);
                            self.lemma_slot(j);
                            let j0 = if j < i {
                                j
                            } else {
                                j + 1
                            };
                            before.lemma_slot(j0);
                            before.lemma_slot(i as int);
                        }
                    }
                    assert(self@.dom() =~= before@.remove(key).dom());
                    assert(self@ =~= before@.remove(key));
                }
            },
            None => {
                proof {
                    assert(self@.dom() =~= before@.remove(key).dom());
                    assert(self@ =~= before@.remove(key));
                }
            },
        }
    }
}

} // verus!
