//! The column assignments of a mutation or a creation: at most one value per
//! column, a later value for a column replacing the earlier one.
use vstd::prelude::*;

use crate::value::SqlValue;

verus! {

/// Whether two strings are equal (`str`'s `==`, which compares the bytes).
#[verifier::external_body]
fn str_eq(a: &str, b: &str) -> (r: bool)
    ensures
        r == (a@ == b@),
{
    a == b
}

/// Whether the column names of `entries` are pairwise different.
pub open spec fn distinct_columns(entries: Seq<(&'static str, SqlValue)>) -> bool {
    forall|i: int, j: int|
        0 <= i < entries.len() && 0 <= j < entries.len() && i != j ==> entries[i].0@
            != entries[j].0@
}

/// Whether `m` maps exactly the column names of `entries` to their values.
pub open spec fn entries_match(entries: Seq<(&'static str, SqlValue)>, m: Map<Seq<char>, SqlValue>) -> bool {
    &&& forall|i: int| 0 <= i < entries.len() ==> #[trigger] m.contains_key(entries[i].0@)
        && m[entries[i].0@] == entries[i].1
    &&& forall|k: Seq<char>| #[trigger]
        m.contains_key(k) ==> exists|i: int| 0 <= i < entries.len() && entries[i].0@ == k
}

/// Values assigned to columns, kept in the order of their first assignment.
pub struct FieldAssignments {
    entries: Vec<(&'static str, SqlValue)>,
    map: Ghost<Map<Seq<char>, SqlValue>>,
}

impl FieldAssignments {
    #[verifier::type_invariant]
    spec fn inv(&self) -> bool {
        &&& distinct_columns(self.entries@)
        &&& entries_match(self.entries@, self.map@)
    }

    /// The value assigned to each column.
    pub closed spec fn spec_map(&self) -> Map<Seq<char>, SqlValue> {
        self.map@
    }

    /// The assignments in order.
    pub closed spec fn spec_entries(&self) -> Seq<(&'static str, SqlValue)> {
        self.entries@
    }

    /// No assignment.
    pub fn new() -> (r: FieldAssignments)
        ensures
            r.spec_map() == Map::<Seq<char>, SqlValue>::empty(),
    {
        FieldAssignments { entries: Vec::new(), map: Ghost(Map::empty()) }
    }

    /// The index of the assignment to `column`, if there is one.
    fn find(&self, column: &str) -> (r: Option<usize>)
        ensures
            r matches Some(i) ==> i < self.entries@.len() && self.entries@[i as int].0@ == column@,
            r is None ==> forall|i: int|
                0 <= i < self.entries@.len() ==> self.entries@[i].0@ != column@,
    {
        let mut i: usize = 0;
        while i < self.entries.len()
            invariant
                i <= self.entries@.len(),
                forall|j: int| 0 <= j < i ==> self.entries@[j].0@ != column@,
            decreases self.entries@.len() - i,
        {
            if str_eq(self.entries[i].0, column) {
                return Some(i);
            }
            i = i + 1;
        }
        None
    }

    /// Assigns `value` to `column`, replacing an earlier value.
    pub fn set(&mut self, column: &'static str, value: SqlValue)
        ensures
            final(self).spec_map() == old(self).spec_map().insert(column@, value),
    {
        let found = self.find(column);
        let mut taken = FieldAssignments::new();
        core::mem::swap(self, &mut taken);
        proof {
            use_type_invariant(&taken);
        }
        let ghost old_entries = taken.entries@;
        let ghost new_map = taken.map@.insert(column@, value);
        let FieldAssignments { entries, map } = taken;
        let mut entries = entries;
        match found {
            Some(i) => {
                entries.set(i, (column, value));
                proof {
                    assert forall|k: Seq<char>| #[trigger]
                        new_map.contains_key(k) implies exists|j: int|
                        0 <= j < entries@.len() && entries@[j].0@ == k by {
                        if k != column@ {
                            let j = choose|j: int|
                                0 <= j < old_entries.len() && old_entries[j].0@ == k;
                            assert(entries@[j].0@ == k);
                        } else {
                            assert(entries@[i as int].0@ == k);
                        }
                    }
                }
                *self = FieldAssignments { entries, map: Ghost(new_map) };
            },
            None => {
                entries.push((column, value));
                proof {
                    assert forall|k: Seq<char>| #[trigger]
                        new_map.contains_key(k) implies exists|j: int|
                        0 <= j < entries@.len() && entries@[j].0@ == k by {
                        if k != column@ {
                            let j = choose|j: int|
                                0 <= j < old_entries.len() && old_entries[j].0@ == k;
                            assert(entries@[j].0@ == k);
                        } else {
                            assert(entries@[old_entries.len() as int].0@ == k);
                        }
                    }
                }
                *self = FieldAssignments { entries, map: Ghost(new_map) };
            },
        }
    }

    /// Removes the assignment to `column`, if there is one.
    pub fn unset(&mut self, column: &str)
        ensures
            final(self).spec_map() == old(self).spec_map().remove(column@),
    {
        let found = self.find(column);
        let mut taken = FieldAssignments::new();
        core::mem::swap(self, &mut taken);
        proof {
            use_type_invariant(&taken);
        }
        let ghost old_entries = taken.entries@;
        let ghost old_map = taken.map@;
        let ghost new_map = taken.map@.remove(column@);
        let FieldAssignments { entries, map } = taken;
        let mut entries = entries;
        match found {
            Some(i) => {
                entries.remove(i);
                proof {
                    assert forall|k: Seq<char>| #[trigger]
                        new_map.contains_key(k) implies exists|j: int|
                        0 <= j < entries@.len() && entries@[j].0@ == k by {
                        let j = choose|j: int|
                            0 <= j < old_entries.len() && old_entries[j].0@ == k;
                        if j < i {
                            assert(entries@[j].0@ == k);
                        } else {
                            assert(entries@[j - 1].0@ == k);
                        }
                    }
                    assert forall|a: int| 0 <= a < entries@.len() implies #[trigger]
                        new_map.contains_key(entries@[a].0@) && new_map[entries@[a].0@]
                        == entries@[a].1 by {
                        if a < i {
                            assert(entries@[a] == old_entries[a]);
                        } else {
                            assert(entries@[a] == old_entries[a + 1]);
                        }
                    }
                }
                *self = FieldAssignments { entries, map: Ghost(new_map) };
            },
            None => {
                proof {
                    assert(new_map == old_map) by {
                        assert(!old_map.contains_key(column@));
                    }
                }
                *self = FieldAssignments { entries, map: Ghost(new_map) };
            },
        }
    }

    /// The value assigned to `column`, if there is one.
    pub fn get(&self, column: &str) -> (r: Option<&SqlValue>)
        ensures
            r is Some <==> self.spec_map().contains_key(column@),
            r matches Some(v) ==> *v == self.spec_map()[column@],
    {
        proof {
            use_type_invariant(self);
        }
        match self.find(column) {
            Some(i) => {
                assert(self.map@.contains_key(self.entries@[i as int].0@));
                Some(&self.entries[i].1)
            },
            None => None,
        }
    }

    /// The assignments, each column once, in the order of their first assignment.
    pub fn into_entries(self) -> (r: Vec<(&'static str, SqlValue)>)
        ensures
            r@ == self.spec_entries(),
            distinct_columns(r@),
            entries_match(r@, self.spec_map()),
    {
        proof {
            use_type_invariant(&self);
        }
        self.entries
    }
}

} // verus!
