//! A table of values under text keys: nothing occurs twice, and what came
//! first stays first.

use crate::text::same_text;
use vstd::prelude::*;

verus! {

/// Values under text keys, in the order in which the keys came.
pub struct Table<T> {
    entries: Vec<(String, T)>,
}

/// The keys of entries, in order.
spec fn keys_of<T>(entries: Seq<(String, T)>) -> Seq<Seq<char>> {
    Seq::new(entries.len(), |i: int| entries[i].0@)
}

/// The entries as a map from key to value.
spec fn map_of<T>(entries: Seq<(String, T)>) -> Map<Seq<char>, T> {
    Map::new(
        |key: Seq<char>| keys_of(entries).contains(key),
        |key: Seq<char>| entries[keys_of(entries).index_of(key)].1,
    )
}

/// Whether no key occurs twice.
spec fn distinct<T>(entries: Seq<(String, T)>) -> bool {
    forall|i: int, j: int|
        0 <= i < j < entries.len() ==> #[trigger] entries[i].0@ != #[trigger] entries[j].0@
}

impl<T> View for Table<T> {
    type V = Map<Seq<char>, T>;

    closed spec fn view(&self) -> Map<Seq<char>, T> {
        map_of(self.entries@)
    }
}

proof fn lemma_entry<T>(entries: Seq<(String, T)>, i: int)
    requires
        distinct(entries),
        0 <= i < entries.len(),
    ensures
        map_of(entries).contains_key(entries[i].0@),
        map_of(entries)[entries[i].0@] == entries[i].1,
{
    let keys = keys_of(entries);
    assert(keys[i] == entries[i].0@);
    assert(keys.contains(entries[i].0@));
    let j = keys.index_of(entries[i].0@);
    assert(keys[j] == keys[i]);
    if i < j {
        assert(entries[i].0@ != entries[j].0@);
    } else if j < i {
        assert(entries[j].0@ != entries[i].0@);
    }
}

proof fn lemma_absent<T>(entries: Seq<(String, T)>, key: Seq<char>)
    requires
        forall|i: int| 0 <= i < entries.len() ==> (#[trigger] entries[i]).0@ != key,
    ensures
        !map_of(entries).contains_key(key),
{
    let keys = keys_of(entries);
    if keys.contains(key) {
        let i = keys.index_of(key);
        assert(keys[i] == entries[i].0@);
    }
}

proof fn lemma_present<T>(entries: Seq<(String, T)>, key: Seq<char>) -> (i: int)
    requires
        map_of(entries).contains_key(key),
    ensures
        0 <= i < entries.len(),
        entries[i].0@ == key,
        map_of(entries)[key] == entries[i].1,
{
    let i = keys_of(entries).index_of(key);
    assert(keys_of(entries)[i] == entries[i].0@);
    i
}

proof fn lemma_size<T>(entries: Seq<(String, T)>)
    requires
        distinct(entries),
    ensures
        map_of(entries).dom().finite(),
        map_of(entries).dom().len() == entries.len(),
{
    let keys = keys_of(entries);
    assert(keys.no_duplicates()) by {
        assert forall|i: int, j: int|
            0 <= i < keys.len() && 0 <= j < keys.len() && i != j implies keys[i] != keys[j] by {
            if i < j {
                assert(entries[i].0@ != entries[j].0@);
            } else {
                assert(entries[j].0@ != entries[i].0@);
            }
        }
    }
    keys.unique_seq_to_set();
    vstd::seq_lib::seq_to_set_is_finite(keys);
    assert(map_of(entries).dom() =~= keys.to_set());
}

impl<T> Table<T> {
    #[verifier::type_invariant]
    spec fn keys_are_distinct(self) -> bool {
        distinct(self.entries@)
    }

    /// A table without entries.
    pub fn new() -> (table: Self)
        ensures
            table@ == Map::<Seq<char>, T>::empty(),
    {
        let table = Table { entries: Vec::new() };
        assert(table@ =~= Map::<Seq<char>, T>::empty()) by {
            assert forall|key: Seq<char>| !table@.contains_key(key) by {
                lemma_absent(table.entries@, key);
            }
        }
        table
    }

    /// How many entries there are.
    pub fn len(&self) -> (len: usize)
        ensures
            self@.dom().finite(),
            len == self@.dom().len(),
    {
        proof {
            use_type_invariant(self);
            lemma_size(self.entries@);
        }
        self.entries.len()
    }

    fn find(&self, key: &str) -> (found: Option<usize>)
        ensures
            match found {
                Some(i) => {
                    &&& i < self.entries@.len()
                    &&& self.entries@[i as int].0@ == key@
                    &&& self@.contains_key(key@)
                    &&& self@[key@] == self.entries@[i as int].1
                },
                None => {
                    &&& !self@.contains_key(key@)
                    &&& forall|i: int|
                        0 <= i < self.entries@.len() ==> (#[trigger] self.entries@[i]).0@ != key@
                },
            },
    {
        proof {
            use_type_invariant(self);
        }
        let mut i: usize = 0;
        while i < self.entries.len()
            invariant
                distinct(self.entries@),
                i <= self.entries@.len(),
                forall|j: int| 0 <= j < i ==> (#[trigger] self.entries@[j]).0@ != key@,
            decreases self.entries@.len() - i,
        {
            if same_text(self.entries[i].0.as_str(), key) {
                proof {
                    lemma_entry(self.entries@, i as int);
                }
                return Some(i);
            }
            i = i + 1;
        }
        proof {
            lemma_absent(self.entries@, key@);
        }
        None
    }

    /// Whether there is an entry under the key.
    pub fn contains(&self, key: &str) -> (found: bool)
        ensures
            found == self@.contains_key(key@),
    {
        self.find(key).is_some()
    }

    /// The entry under the key.
    pub fn get(&self, key: &str) -> (value: Option<&T>)
        ensures
            match value {
                Some(value) => self@.contains_key(key@) && *value == self@[key@],
                None => !self@.contains_key(key@),
            },
    {
        match self.find(key) {
            Some(i) => Some(&self.entries[i].1),
            None => None,
        }
    }

    /// Adds or replaces the entry under the key, and gives back what was
    /// there.
    pub fn insert(&mut self, key: String, value: T) -> (previous: Option<T>)
        ensures
            final(self)@ == old(self)@.insert(key@, value),
            match previous {
                Some(previous) => old(self)@.contains_key(key@) && previous == old(self)@[key@],
                None => !old(self)@.contains_key(key@),
            },
    {
        proof {
            use_type_invariant(&*self);
        }
        let found = self.find(key.as_str());
        let ghost before = self.entries@;
        let mut entries: Vec<(String, T)> = Vec::new();
        std::mem::swap(&mut entries, &mut self.entries);
        let previous = match found {
            Some(i) => {
                let (taken, previous) = entries.remove(i);
                let ghost added = (taken, value);
                entries.insert(i, (taken, value));
                proof {
                    assert(entries@ =~= before.update(i as int, added));
                    assert(distinct(entries@)) by {
                        assert forall|a: int, b: int| 0 <= a < b < entries@.len() implies (
                        #[trigger] entries@[a]).0@ != (#[trigger] entries@[b]).0@ by {
                            assert(entries@[a].0 == before[a].0 && entries@[b].0 == before[b].0);
                            assert(before[a].0@ != before[b].0@);
                        }
                    }
                    assert(keys_of(entries@) =~= keys_of(before));
                    assert(map_of(entries@) =~= map_of(before).insert(key@, value)) by {
                        lemma_entry(entries@, i as int);
                        assert forall|other: Seq<char>|
                            map_of(before).contains_key(other) && other
                                != key@ implies map_of(entries@)[other] == map_of(before)[other] by {
                            let j = lemma_present(before, other);
                            lemma_entry(entries@, j);
                        }
                    }
                }
                Some(previous)
            },
            None => {
                let ghost added = (key, value);
                entries.push((key, value));
                proof {
                    assert(entries@ =~= before.push(added));
                    assert(distinct(entries@)) by {
                        assert forall|a: int, b: int| 0 <= a < b < entries@.len() implies (
                        #[trigger] entries@[a]).0@ != (#[trigger] entries@[b]).0@ by {
                            if b < before.len() {
                                assert(before[a].0@ != before[b].0@);
                            } else {
                                assert(before[a].0@ != key@);
                            }
                        }
                    }
                    assert(map_of(entries@) =~= map_of(before).insert(key@, value)) by {
                        lemma_entry(entries@, before.len() as int);
                        assert forall|other: Seq<char>| #[trigger]
                            map_of(before).contains_key(other) implies map_of(
                            entries@,
                        ).contains_key(other) && map_of(entries@)[other] == map_of(before)[other] by {
                            let j = lemma_present(before, other);
                            lemma_entry(entries@, j);
                            assert(entries@[j] == before[j]);
                        }
                        assert forall|other: Seq<char>| #[trigger]
                            map_of(entries@).contains_key(other) && other
                                != key@ implies map_of(before).contains_key(other) by {
                            let j = lemma_present(entries@, other);
                            lemma_entry(before, j);
                        }
                    }
                }
                None
            },
        };
        self.entries = entries;
        previous
    }

    /// Takes the entry under the key out.
    pub fn remove(&mut self, key: &str) -> (removed: Option<T>)
        ensures
            final(self)@ == old(self)@.remove(key@),
            match removed {
                Some(removed) => old(self)@.contains_key(key@) && removed == old(self)@[key@],
                None => !old(self)@.contains_key(key@),
            },
    {
        proof {
            use_type_invariant(&*self);
        }
        match self.find(key) {
            Some(i) => {
                let ghost before = self.entries@;
                let mut entries: Vec<(String, T)> = Vec::new();
                std::mem::swap(&mut entries, &mut self.entries);
                let (_, removed) = entries.remove(i);
                proof {
                    lemma_removed(before, entries@, i as int);
                }
                self.entries = entries;
                Some(removed)
            },
            None => {
                assert(self@.remove(key@) =~= self@);
                None
            },
        }
    }

    /// The key that came first.
    pub fn first_key(&self) -> (key: Option<String>)
        ensures
            match key {
                Some(key) => self@.contains_key(key@),
                None => self@ == Map::<Seq<char>, T>::empty(),
            },
    {
        proof {
            use_type_invariant(self);
        }
        if self.entries.len() == 0 {
            assert(self@ =~= Map::<Seq<char>, T>::empty()) by {
                assert forall|key: Seq<char>| !self@.contains_key(key) by {
                    lemma_absent(self.entries@, key);
                }
            }
            None
        } else {
            proof {
                lemma_entry(self.entries@, 0);
            }
            Some(self.entries[0].0.clone())
        }
    }

    /// Takes every entry out, with the keys they were under.
    pub fn drain(&mut self) -> (drained: Vec<(String, T)>)
        ensures
            final(self)@ == Map::<Seq<char>, T>::empty(),
            old(self)@.dom().finite(),
            drained@.len() == old(self)@.dom().len(),
            forall|i: int|
                0 <= i < drained@.len() ==> old(self)@.contains_key((#[trigger] drained@[i]).0@)
                    && old(self)@[drained@[i].0@] == drained@[i].1,
            forall|i: int, j: int|
                0 <= i < j < drained@.len() ==> (#[trigger] drained@[i]).0@ != (
                #[trigger] drained@[j]).0@,
    {
        proof {
            use_type_invariant(&*self);
            lemma_size(self.entries@);
            assert forall|i: int| 0 <= i < self.entries@.len() implies self@.contains_key(
                (#[trigger] self.entries@[i]).0@,
            ) && self@[self.entries@[i].0@] == self.entries@[i].1 by {
                lemma_entry(self.entries@, i);
            }
        }
        let mut entries: Vec<(String, T)> = Vec::new();
        std::mem::swap(&mut entries, &mut self.entries);
        assert(self@ =~= Map::<Seq<char>, T>::empty()) by {
            assert forall|key: Seq<char>| !self@.contains_key(key) by {
                lemma_absent(self.entries@, key);
            }
        }
        entries
    }
}

proof fn lemma_removed<T>(before: Seq<(String, T)>, after: Seq<(String, T)>, i: int)
    requires
        distinct(before),
        0 <= i < before.len(),
        after == before.remove(i),
    ensures
        distinct(after),
        map_of(after) == map_of(before).remove(before[i].0@),
{
    let key = before[i].0@;
    assert forall|a: int, b: int| 0 <= a < b < after.len() implies (#[trigger] after[a]).0@ != (
    #[trigger] after[b]).0@ by {
        let x = if a < i {
            a
        } else {
            a + 1
        };
        let y = if b < i {
            b
        } else {
            b + 1
        };
        assert(after[a] == before[x] && after[b] == before[y]);
        assert(before[x].0@ != before[y].0@);
    }
    assert forall|j: int| 0 <= j < after.len() implies (#[trigger] after[j]).0@ != key by {
        let x = if j < i {
            j
        } else {
            j + 1
        };
        assert(after[j] == before[x]);
        if x < i {
            assert(before[x].0@ != before[i].0@);
        } else {
            assert(before[i].0@ != before[x].0@);
        }
    }
    lemma_absent(after, key);
    assert forall|other: Seq<char>| #[trigger]
        map_of(before).contains_key(other) && other != key implies map_of(after).contains_key(other)
        && map_of(after)[other] == map_of(before)[other] by {
        let x = lemma_present(before, other);
        let j = if x < i {
            x
        } else {
            x - 1
        };
        assert(after[j] == before[x]);
        lemma_entry(after, j);
    }
    assert forall|other: Seq<char>| #[trigger] map_of(after).contains_key(other) implies map_of(
        before,
    ).contains_key(other) by {
        let j = lemma_present(after, other);
        let x = if j < i {
            j
        } else {
            j + 1
        };
        assert(after[j] == before[x]);
        lemma_entry(before, x);
    }
    assert(map_of(after) =~= map_of(before).remove(key));
}

impl Table<String> {
    /// Copies a table of texts.
    pub fn copy(&self) -> (copy: Self)
        ensures
            copy@ == self@,
    {
        proof {
            use_type_invariant(self);
        }
        let mut entries: Vec<(String, String)> = Vec::new();
        let mut i: usize = 0;
        while i < self.entries.len()
            invariant
                distinct(self.entries@),
                i <= self.entries@.len(),
                entries@ == self.entries@.take(i as int),
            decreases self.entries@.len() - i,
        {
            let key = self.entries[i].0.clone();
            let value = self.entries[i].1.clone();
            entries.push((key, value));
            i = i + 1;
            assert(entries@ =~= self.entries@.take(i as int));
        }
        assert(entries@ =~= self.entries@);
        Table { entries }
    }
}

} // verus!
