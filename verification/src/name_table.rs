//! A table of values found by name.

use vstd::prelude::*;

verus! {

/// A map from names to values that hands a value out, by move, when its name is removed.
///
/// Its view is the mathematical map from names to values.
pub struct NameTable<V> {
    entries: Vec<(String, V)>,
}

/// No two entries have the same name.
spec fn names_differ<V>(entries: Seq<(String, V)>) -> bool {
    forall|i: int, j: int|
        0 <= i < j < entries.len() ==> (#[trigger] entries[i]).0@ != (#[trigger] entries[j]).0@
}

/// The entry at `i` is called `name`.
spec fn is_at<V>(entries: Seq<(String, V)>, i: int, name: Seq<char>) -> bool {
    0 <= i < entries.len() && entries[i].0@ == name
}

/// The map that a list of entries stands for.
spec fn entry_map<V>(entries: Seq<(String, V)>) -> Map<Seq<char>, V> {
    Map::new(
        |name: Seq<char>| exists|i: int| is_at(entries, i, name),
        |name: Seq<char>| entries[choose|i: int| is_at(entries, i, name)].1,
    )
}

/// The map holds each entry.
proof fn lemma_entries_found<V>(entries: Seq<(String, V)>)
    requires
        names_differ(entries),
    ensures
        forall|i: int, name: Seq<char>| #[trigger]
            is_at(entries, i, name) ==> entry_map(entries).contains_key(name) && entry_map(
                entries,
            )[name] == entries[i].1,
{
    assert forall|i: int, name: Seq<char>| #[trigger] is_at(entries, i, name) implies entry_map(
        entries,
    ).contains_key(name) && entry_map(entries)[name] == entries[i].1 by {
        let j = choose|j: int| is_at(entries, j, name);
        assert(is_at(entries, j, name));
    }
}

/// The map is the one that holds each entry, and nothing else.
proof fn lemma_entry_map_is<V>(entries: Seq<(String, V)>, m: Map<Seq<char>, V>)
    requires
        names_differ(entries),
        forall|i: int|
            0 <= i < entries.len() ==> m.contains_key((#[trigger] entries[i]).0@)
                && m[entries[i].0@] == entries[i].1,
        forall|name: Seq<char>| #[trigger]
            m.contains_key(name) ==> exists|i: int| is_at(entries, i, name),
    ensures
        entry_map(entries) == m,
{
    lemma_entries_found(entries);
    assert(entry_map(entries) =~= m);
}

impl<V> View for NameTable<V> {
    type V = Map<Seq<char>, V>;

    closed spec fn view(&self) -> Map<Seq<char>, V> {
        entry_map(self.entries@)
    }
}

impl<V> NameTable<V> {
    #[verifier::type_invariant]
    spec fn well_formed(self) -> bool {
        names_differ(self.entries@)
    }

    /// The empty table.
    pub fn new() -> (table: Self)
        ensures
            table@ == Map::<Seq<char>, V>::empty(),
    {
        let table = NameTable { entries: Vec::new() };
        proof {
            lemma_entry_map_is(table.entries@, Map::empty());
        }
        table
    }

    /// Where `name` stands among the entries.
    fn position(entries: &Vec<(String, V)>, name: &str) -> (found: Option<usize>)
        ensures
            match found {
                Some(i) => is_at(entries@, i as int, name@),
                None => forall|i: int| !is_at(entries@, i, name@),
            },
    {
        let key = name.to_owned();
        let mut i: usize = 0;
        while i < entries.len()
            invariant
                key@ == name@,
                i <= entries.len(),
                forall|j: int| 0 <= j < i ==> !#[trigger] is_at(entries@, j, name@),
            decreases entries.len() - i,
        {
            if entries[i].0 == key {
                return Some(i);
            }
            i += 1;
        }
        None
    }

    /// The value called `name`, if there is one.
    pub fn get(&self, name: &str) -> (found: Option<&V>)
        ensures
            match found {
                Some(v) => self@.contains_key(name@) && self@[name@] == *v,
                None => !self@.contains_key(name@),
            },
    {
        proof {
            use_type_invariant(self);
            lemma_entries_found(self.entries@);
        }
        match Self::position(&self.entries, name) {
            Some(i) => Some(&self.entries[i].1),
            None => None,
        }
    }

    /// Puts `value` under `name`. A value that stood there before is dropped.
    pub fn insert(&mut self, name: String, value: V)
        ensures
            final(self)@ == old(self)@.insert(name@, value),
    {
        proof {
            use_type_invariant(&*self);
            lemma_entries_found(self.entries@);
        }
        let ghost before = self.entries@;
        let ghost key = name@;
        let mut entries: Vec<(String, V)> = Vec::new();
        std::mem::swap(&mut entries, &mut self.entries);
        let found = Self::position(&entries, name.as_str());
        let ghost at = match found {
            Some(i) => i as int,
            None => before.len() as int,
        };
        match found {
            Some(i) => {
                entries.set(i, (name, value));
            },
            None => {
                entries.push((name, value));
            },
        }
        proof {
            let m = entry_map(before).insert(key, value);
            assert forall|i: int, j: int| 0 <= i < j < entries@.len() implies (
            #[trigger] entries@[i]).0@ != (#[trigger] entries@[j]).0@ by {
                assert(!is_at(before, i, key) || !is_at(before, j, key));
            }
            assert forall|i: int| 0 <= i < entries@.len() implies m.contains_key(
                (#[trigger] entries@[i]).0@,
            ) && m[entries@[i].0@] == entries@[i].1 by {
                if i == at {
                    assert(entries@[i].1 == value);
                } else {
                    assert(entries@[i].0@ != entries@[at].0@);
                    assert(is_at(before, i, entries@[i].0@));
                }
            }
            assert forall|other: Seq<char>| #[trigger] m.contains_key(other) implies exists|i: int|
                is_at(entries@, i, other) by {
                if other == key {
                    assert(is_at(entries@, at, key));
                } else {
                    let j = choose|j: int| is_at(before, j, other);
                    assert(is_at(entries@, j, other));
                }
            }
            lemma_entry_map_is(entries@, m);
        }
        self.entries = entries;
    }

    /// Takes the value called `name` out of the table.
    pub fn remove(&mut self, name: &str) -> (removed: Option<V>)
        ensures
            final(self)@ == old(self)@.remove(name@),
            match removed {
                Some(v) => old(self)@.contains_key(name@) && old(self)@[name@] == v,
                None => !old(self)@.contains_key(name@),
            },
    {
        proof {
            use_type_invariant(&*self);
            lemma_entries_found(self.entries@);
        }
        let ghost before = self.entries@;
        let mut entries: Vec<(String, V)> = Vec::new();
        std::mem::swap(&mut entries, &mut self.entries);
        let removed = match Self::position(&entries, name) {
            Some(at) => {
                let (_, value) = entries.remove(at);
                proof {
                    let m = entry_map(before).remove(name@);
                    assert forall|i: int| 0 <= i < entries@.len() implies m.contains_key(
                        (#[trigger] entries@[i]).0@,
                    ) && m[entries@[i].0@] == entries@[i].1 by {
                        let j = if i < at {
                            i
                        } else {
                            i + 1
                        };
                        assert(is_at(before, j, entries@[i].0@));
                        assert(before[j].0@ != before[at as int].0@);
                    }
                    assert forall|other: Seq<char>| #[trigger] m.contains_key(other) implies exists|
                        i: int,
                    | is_at(entries@, i, other) by {
                        let j = choose|j: int| is_at(before, j, other);
                        assert(is_at(
                            entries@,
                            if j < at {
                                j
                            } else {
                                j - 1
                            },
                            other,
                        ));
                    }
                    lemma_entry_map_is(entries@, m);
                }
                Some(value)
            },
            None => {
                proof {
                    assert(entry_map(before).remove(name@) =~= entry_map(before));
                }
                None
            },
        };
        self.entries = entries;
        removed
    }
}

} // verus!
