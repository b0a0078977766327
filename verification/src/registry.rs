//! One registry per kind of live resource the plugin holds for the host
//! between requests: execs, stdio processes, PTYs, log streams, and cached
//! sandbox handles.

use crate::table::Table;
use vstd::pervasive::cloned;
use vstd::prelude::*;

verus! {

/// Resources under their text ids.
pub struct Registry<T> {
    pub entries: Table<T>,
}

impl<T> View for Registry<T> {
    type V = Map<Seq<char>, T>;

    open spec fn view(&self) -> Map<Seq<char>, T> {
        self.entries@
    }
}

/// Whether an entry was added or replaced. A registry that was full lost
/// exactly one of its entries to it.
pub open spec fn inserted<T>(
    before: Map<Seq<char>, T>,
    after: Map<Seq<char>, T>,
    id: Seq<char>,
    value: T,
    full: bool,
) -> bool {
    if full && before.dom().len() > 0 {
        exists|evicted: Seq<char>|
            before.contains_key(evicted) && after == #[trigger] before.remove(evicted).insert(
                id,
                value,
            )
    } else {
        after == before.insert(id, value)
    }
}

impl<T> Registry<T> {
    /// A registry without entries.
    pub fn new() -> (registry: Self)
        ensures
            registry@ == Map::<Seq<char>, T>::empty(),
    {
        Registry { entries: Table::new() }
    }

    /// The entries, to be changed.
    pub fn lock(&mut self) -> (entries: &mut Table<T>)
        ensures
            *entries == old(self).entries,
            final(self).entries == *final(entries),
    {
        &mut self.entries
    }

    /// Adds the value under the id, or hands it back when the id is taken so
    /// the caller can release whatever the value owns.
    pub fn try_insert(&mut self, id: String, value: T) -> (outcome: Result<(), T>)
        ensures
            match outcome {
                Ok(()) => !old(self)@.contains_key(id@) && final(self)@ == old(self)@.insert(
                    id@,
                    value,
                ),
                Err(back) => old(self)@.contains_key(id@) && back == value && final(self)@ == old(self)@,
            },
    {
        if self.entries.contains(id.as_str()) {
            return Err(value);
        }
        self.entries.insert(id, value);
        Ok(())
    }

    /// Adds or replaces the entry under the id.
    pub fn insert(&mut self, id: String, value: T)
        ensures
            final(self)@ == old(self)@.insert(id@, value),
    {
        self.entries.insert(id, value);
    }

    /// Adds or replaces the entry under the id, first evicting one arbitrary
    /// entry when the registry is full and the id is new.
    pub fn insert_bounded(&mut self, id: String, value: T, max: usize)
        ensures
            inserted(
                old(self)@,
                final(self)@,
                id@,
                value,
                !old(self)@.contains_key(id@) && old(self)@.dom().len() >= max,
            ),
            max > 0 && old(self)@.dom().len() <= max ==> final(self)@.dom().len() <= max,
    {
        let count: usize = self.entries.len();
        if !self.entries.contains(id.as_str()) && count >= max {
            if let Some(evicted) = self.entries.first_key() {
                self.entries.remove(evicted.as_str());
                self.entries.insert(id, value);
                proof {
                    assert(self@ == old(self)@.remove(evicted@).insert(id@, value));
                }
                return;
            }
        }
        self.entries.insert(id, value);
    }

    /// Adds or replaces the entry under the id, first evicting one arbitrary
    /// entry when the registry is full, whether the id is new or not.
    pub fn insert_evicting(&mut self, id: String, value: T, max: usize)
        ensures
            inserted(old(self)@, final(self)@, id@, value, old(self)@.dom().len() >= max),
            max > 0 && old(self)@.dom().len() <= max ==> final(self)@.dom().len() <= max,
    {
        let count: usize = self.entries.len();
        if count >= max {
            if let Some(evicted) = self.entries.first_key() {
                self.entries.remove(evicted.as_str());
                self.entries.insert(id, value);
                proof {
                    assert(self@ == old(self)@.remove(evicted@).insert(id@, value));
                }
                return;
            }
        }
        self.entries.insert(id, value);
    }

    /// Takes the entry under the id out.
    pub fn remove(&mut self, id: &str) -> (removed: Option<T>)
        ensures
            final(self)@ == old(self)@.remove(id@),
            match removed {
                Some(removed) => old(self)@.contains_key(id@) && removed == old(self)@[id@],
                None => !old(self)@.contains_key(id@),
            },
    {
        self.entries.remove(id)
    }

    /// Takes every entry out of the registry.
    pub fn drain(&mut self) -> (drained: Vec<T>)
        ensures
            final(self)@ == Map::<Seq<char>, T>::empty(),
            exists|ids: Seq<Seq<char>>| #[trigger]
                lists_all(ids, old(self)@.dom()) && drained@ == Seq::new(
                    ids.len(),
                    |i: int| old(self)@[ids[i]],
                ),
    {
        let mut entries = self.entries.drain();
        let ghost all = entries@;
        let ghost ids = Seq::new(all.len(), |i: int| all[i].0@);
        let mut values: Vec<T> = Vec::new();
        while entries.len() > 0
            invariant
                entries@.len() <= all.len(),
                entries@ == all.skip(all.len() - entries@.len()),
                values@.len() == all.len() - entries@.len(),
                forall|i: int| 0 <= i < values@.len() ==> values@[i] == (#[trigger] all[i]).1,
            decreases entries@.len(),
        {
            let (_, value) = entries.remove(0);
            values.push(value);
            assert(entries@ =~= all.skip(all.len() - entries@.len()));
        }
        proof {
            let dom = old(self)@.dom();
            assert(ids.no_duplicates()) by {
                assert forall|i: int, j: int|
                    0 <= i < ids.len() && 0 <= j < ids.len() && i != j implies ids[i] != ids[j] by {
                    if i < j {
                        assert(all[i].0@ != all[j].0@);
                    } else {
                        assert(all[j].0@ != all[i].0@);
                    }
                }
            }
            ids.unique_seq_to_set();
            vstd::seq_lib::seq_to_set_is_finite(ids);
            assert(ids.to_set().subset_of(dom)) by {
                assert forall|id: Seq<char>| ids.to_set().contains(id) implies dom.contains(id) by {
                    let i = ids.index_of(id);
                    assert(all[i].0@ == id);
                }
            }
            lemma_equal_size_subset(ids.to_set(), dom);
            assert(lists_all(ids, dom));
            assert forall|i: int| 0 <= i < all.len() implies values@[i] == old(self)@[ids[i]] by {
                assert(all[i].0@ == ids[i]);
            }
            assert(values@ =~= Seq::new(ids.len(), |i: int| old(self)@[ids[i]]));
        }
        values
    }

    /// How many entries there are.
    pub fn len(&self) -> (len: usize)
        ensures
            self@.dom().finite(),
            len == self@.dom().len(),
    {
        self.entries.len()
    }
}

/// Whether ids are those of a set, each once.
pub open spec fn lists_all(ids: Seq<Seq<char>>, dom: Set<Seq<char>>) -> bool {
    ids.no_duplicates() && ids.to_set() == dom
}

proof fn lemma_equal_size_subset<A>(part: Set<A>, whole: Set<A>)
    requires
        part.subset_of(whole),
        part.finite(),
        whole.finite(),
        part.len() == whole.len(),
    ensures
        part == whole,
{
    if part != whole {
        assert(exists|a: A| whole.contains(a) && !part.contains(a)) by {
            if forall|a: A| whole.contains(a) ==> part.contains(a) {
                assert(part =~= whole);
            }
        }
        let extra = choose|a: A| whole.contains(a) && !part.contains(a);
        vstd::set_lib::lemma_len_subset(part, whole.remove(extra));
    }
}

impl<T: Clone> Registry<T> {
    /// A copy of the entry under the id.
    pub fn get(&self, id: &str) -> (value: Option<T>)
        ensures
            match value {
                Some(value) => self@.contains_key(id@) && cloned(self@[id@], value),
                None => !self@.contains_key(id@),
            },
    {
        match self.entries.get(id) {
            Some(value) => Some(value.clone()),
            None => None,
        }
    }

    /// A copy of the entry under the id, inserting what `make` gives first
    /// when there is none.
    pub fn get_or_insert_with<F: FnOnce() -> T>(&mut self, id: String, make: F) -> (value: T)
        requires
            make.requires(()),
        ensures
            if old(self)@.contains_key(id@) {
                &&& final(self)@ == old(self)@
                &&& cloned(old(self)@[id@], value)
            } else {
                &&& final(self)@.contains_key(id@)
                &&& final(self)@ == old(self)@.insert(id@, final(self)@[id@])
                &&& make.ensures((), final(self)@[id@])
                &&& cloned(final(self)@[id@], value)
            },
    {
        match self.entries.get(id.as_str()) {
            Some(value) => {
                return value.clone();
            },
            None => {},
        }
        let made = make();
        let value = made.clone();
        self.entries.insert(id, made);
        value
    }
}

/// What is inserted is found under its id, and nothing else changes but that
/// a full registry loses at most one other entry; one that has room loses
/// none.
pub proof fn what_is_inserted_is_found<T>(
    before: Map<Seq<char>, T>,
    after: Map<Seq<char>, T>,
    id: Seq<char>,
    value: T,
    full: bool,
)
    requires
        inserted(before, after, id, value, full),
    ensures
        after.contains_key(id),
        after[id] == value,
        forall|other: Seq<char>|
            other != id && #[trigger] after.contains_key(other) ==> before.contains_key(other)
                && after[other] == before[other],
        !full ==> forall|other: Seq<char>| #[trigger]
            before.contains_key(other) ==> after.contains_key(other),
        forall|one: Seq<char>, other: Seq<char>|
            #![trigger before.contains_key(one), before.contains_key(other)]
            before.contains_key(one) && before.contains_key(other) && !after.contains_key(one)
                && !after.contains_key(other) ==> one == other,
{
    if full && before.dom().len() > 0 {
        let evicted = choose|evicted: Seq<char>|
            before.contains_key(evicted) && after == #[trigger] before.remove(evicted).insert(
                id,
                value,
            );
        assert(after == before.remove(evicted).insert(id, value));
    }
}

/// A registry that is kept within its limit stays within it.
pub proof fn a_bounded_registry_stays_bounded<T>(
    before: Map<Seq<char>, T>,
    after: Map<Seq<char>, T>,
    id: Seq<char>,
    value: T,
    max: nat,
)
    requires
        before.dom().finite(),
        0 < max,
        before.dom().len() <= max,
        inserted(before, after, id, value, before.dom().len() >= max),
    ensures
        after.dom().len() <= max,
{
    if before.dom().len() >= max {
        let evicted = choose|evicted: Seq<char>|
            before.contains_key(evicted) && after == #[trigger] before.remove(evicted).insert(
                id,
                value,
            );
        assert(after.dom() =~= before.dom().remove(evicted).insert(id));
    } else {
        assert(after.dom() =~= before.dom().insert(id));
    }
}

/// A list of all ids names every id, names each once, and names no other.
pub proof fn a_list_of_all_is_complete(ids: Seq<Seq<char>>, dom: Set<Seq<char>>)
    requires
        lists_all(ids, dom),
    ensures
        forall|id: Seq<char>| #[trigger] dom.contains(id) <==> ids.contains(id),
        forall|i: int, j: int| 0 <= i < j < ids.len() ==> #[trigger] ids[i] != #[trigger] ids[j],
        ids.len() == dom.len(),
{
    ids.unique_seq_to_set();
    assert forall|id: Seq<char>| #[trigger] dom.contains(id) <==> ids.contains(id) by {
        assert(ids.to_set().contains(id) <==> ids.contains(id));
    }
}

} // verus!
