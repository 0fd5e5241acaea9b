//! A cache of loaded entities of one type, by primary key.
use vstd::prelude::*;

use crate::primary_key::EntPrimaryKey;
use crate::value::{SqlValue, SqlValueView};
use crate::Ent;

verus! {

/// A key as compared: the values of its columns, text by its characters.
pub open spec fn key_view(key: Seq<SqlValue>) -> Seq<SqlValueView> {
    key.map_values(|v: SqlValue| v@)
}

/// The cache key of the primary key value `pk` of `TEnt`.
pub open spec fn cache_key<TEnt: Ent>(
    pk: &<TEnt::PrimaryKey as EntPrimaryKey<TEnt>>::Value,
) -> Seq<SqlValueView> {
    key_view(TEnt::PrimaryKey::spec_key(pk))
}

/// Whether two keys have the same values.
fn keys_equal(a: &Vec<SqlValue>, b: &Vec<SqlValue>) -> (r: bool)
    ensures
        r == (key_view(a@) == key_view(b@)),
{
    if a.len() != b.len() {
        assert(key_view(a@).len() != key_view(b@).len());
        return false;
    }
    let mut i: usize = 0;
    while i < a.len()
        invariant
            a@.len() == b@.len(),
            i <= a@.len(),
            forall|j: int| 0 <= j < i ==> a@[j]@ == b@[j]@,
        decreases a@.len() - i,
    {
        if !a[i].same_as(&b[i]) {
            assert(key_view(a@)[i as int] != key_view(b@)[i as int]);
            return false;
        }
        i = i + 1;
    }
    assert(key_view(a@) =~= key_view(b@));
    true
}

/// Whether the keys of `entries` are pairwise different.
pub open spec fn distinct_keys<T>(entries: Seq<(Vec<SqlValue>, T)>) -> bool {
    forall|i: int, j: int|
        0 <= i < entries.len() && 0 <= j < entries.len() && i != j ==> key_view(entries[i].0@)
            != key_view(entries[j].0@)
}

/// Whether `m` maps exactly the keys of `entries` to their entities.
pub open spec fn cache_entries_match<T>(
    entries: Seq<(Vec<SqlValue>, T)>,
    m: Map<Seq<SqlValueView>, T>,
) -> bool {
    &&& forall|i: int| 0 <= i < entries.len() ==> #[trigger] m.contains_key(key_view(entries[i].0@))
        && m[key_view(entries[i].0@)] == entries[i].1
    &&& forall|k: Seq<SqlValueView>| #[trigger]
        m.contains_key(k) ==> exists|i: int| 0 <= i < entries.len() && key_view(entries[i].0@) == k
}

/// Loaded entities of type `TEnt`, by primary key.
pub struct EntCache<TEnt: Ent> {
    entries: Vec<(Vec<SqlValue>, TEnt)>,
    map: Ghost<Map<Seq<SqlValueView>, TEnt>>,
}

impl<TEnt: Ent> EntCache<TEnt> {
    #[verifier::type_invariant]
    spec fn inv(&self) -> bool {
        &&& distinct_keys(self.entries@)
        &&& cache_entries_match(self.entries@, self.map@)
    }

    /// The cached entity of each key.
    pub closed spec fn spec_entries(&self) -> Map<Seq<SqlValueView>, TEnt> {
        self.map@
    }

    /// An empty cache.
    pub fn new() -> (r: Self)
        ensures
            r.spec_entries() == Map::<Seq<SqlValueView>, TEnt>::empty(),
    {
        EntCache { entries: Vec::new(), map: Ghost(Map::empty()) }
    }

    /// The index of the entry with key `key`, if there is one.
    fn find(&self, key: &Vec<SqlValue>) -> (r: Option<usize>)
        ensures
            r matches Some(i) ==> i < self.entries@.len() && key_view(self.entries@[i as int].0@)
                == key_view(key@),
            r is None ==> forall|i: int|
                0 <= i < self.entries@.len() ==> key_view(self.entries@[i].0@) != key_view(key@),
    {
        let mut i: usize = 0;
        while i < self.entries.len()
            invariant
                i <= self.entries@.len(),
                forall|j: int| 0 <= j < i ==> key_view(self.entries@[j].0@) != key_view(key@),
            decreases self.entries@.len() - i,
        {
            if keys_equal(&self.entries[i].0, key) {
                return Some(i);
            }
            i = i + 1;
        }
        None
    }

    /// The cached entity whose primary key is `pk`, if any.
    pub fn get(&self, pk: &<TEnt::PrimaryKey as EntPrimaryKey<TEnt>>::Value) -> (r: Option<&TEnt>)
        ensures
            r is Some <==> self.spec_entries().contains_key(cache_key::<TEnt>(pk)),
            r matches Some(e) ==> *e == self.spec_entries()[cache_key::<TEnt>(pk)],
    {
        proof {
            use_type_invariant(self);
        }
        let key = TEnt::PrimaryKey::key(pk);
        match self.find(&key) {
            Some(i) => {
                assert(self.map@.contains_key(key_view(self.entries@[i as int].0@)));
                Some(&self.entries[i].1)
            },
            None => None,
        }
    }

    /// Caches `ent` under the primary key `pk`, replacing an entity cached
    /// under the same key.
    pub fn insert(&mut self, pk: <TEnt::PrimaryKey as EntPrimaryKey<TEnt>>::Value, ent: TEnt)
        ensures
            final(self).spec_entries() == old(self).spec_entries().insert(
                cache_key::<TEnt>(&pk),
                ent,
            ),
    {
        let key = TEnt::PrimaryKey::key(&pk);
        let found = self.find(&key);
        let mut taken = EntCache::new();
        core::mem::swap(self, &mut taken);
        proof {
            use_type_invariant(&taken);
        }
        let ghost old_entries = taken.entries@;
        let ghost k0 = key_view(key@);
        let ghost new_map = taken.map@.insert(k0, ent);
        let EntCache { entries, map } = taken;
        let mut entries = entries;
        match found {
            Some(i) => {
                entries.set(i, (key, ent));
                proof {
                    assert forall|k: Seq<SqlValueView>| #[trigger]
                        new_map.contains_key(k) implies exists|j: int|
                        0 <= j < entries@.len() && key_view(entries@[j].0@) == k by {
                        if k != k0 {
                            let j = choose|j: int|
                                0 <= j < old_entries.len() && key_view(old_entries[j].0@) == k;
                            assert(key_view(entries@[j].0@) == k);
                        } else {
                            assert(key_view(entries@[i as int].0@) == k);
                        }
                    }
                }
                *self = EntCache { entries, map: Ghost(new_map) };
            },
            None => {
                entries.push((key, ent));
                proof {
                    assert forall|k: Seq<SqlValueView>| #[trigger]
                        new_map.contains_key(k) implies exists|j: int|
                        0 <= j < entries@.len() && key_view(entries@[j].0@) == k by {
                        if k != k0 {
                            let j = choose|j: int|
                                0 <= j < old_entries.len() && key_view(old_entries[j].0@) == k;
                            assert(key_view(entries@[j].0@) == k);
                        } else {
                            assert(key_view(entries@[old_entries.len() as int].0@) == k);
                        }
                    }
                }
                *self = EntCache { entries, map: Ghost(new_map) };
            },
        }
    }

    /// Drops the entity cached under the primary key `pk`, if any.
    pub fn invalidate(&mut self, pk: &<TEnt::PrimaryKey as EntPrimaryKey<TEnt>>::Value)
        ensures
            final(self).spec_entries() == old(self).spec_entries().remove(cache_key::<TEnt>(pk)),
    {
        let key = TEnt::PrimaryKey::key(pk);
        let found = self.find(&key);
        let mut taken = EntCache::new();
        core::mem::swap(self, &mut taken);
        proof {
            use_type_invariant(&taken);
        }
        let ghost old_entries = taken.entries@;
        let ghost old_map = taken.map@;
        let ghost k0 = key_view(key@);
        let ghost new_map = taken.map@.remove(k0);
        let EntCache { entries, map } = taken;
        let mut entries = entries;
        match found {
            Some(i) => {
                entries.remove(i);
                proof {
                    assert forall|k: Seq<SqlValueView>| #[trigger]
                        new_map.contains_key(k) implies exists|j: int|
                        0 <= j < entries@.len() && key_view(entries@[j].0@) == k by {
                        let j = choose|j: int|
                            0 <= j < old_entries.len() && key_view(old_entries[j].0@) == k;
                        if j < i {
                            assert(key_view(entries@[j].0@) == k);
                        } else {
                            assert(key_view(entries@[j - 1].0@) == k);
                        }
                    }
                    assert forall|a: int| 0 <= a < entries@.len() implies #[trigger]
                        new_map.contains_key(key_view(entries@[a].0@)) && new_map[key_view(
                            entries@[a].0@,
                        )] == entries@[a].1 by {
                        if a < i {
                            assert(entries@[a] == old_entries[a]);
                        } else {
                            assert(entries@[a] == old_entries[a + 1]);
                        }
                    }
                }
                *self = EntCache { entries, map: Ghost(new_map) };
            },
            None => {
                proof {
                    assert(new_map == old_map) by {
                        assert(!old_map.contains_key(k0));
                    }
                }
                *self = EntCache { entries, map: Ghost(new_map) };
            },
        }
    }
}

} // verus!
