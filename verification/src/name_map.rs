//! A map from names to values that remembers the order of first insertion.
//!
//! It backs every registry: lookups are by exact name, a second insertion
//! under a name replaces the first, and the entries can be walked.

use vstd::prelude::*;
use vstd::string::StringExecFns;

verus! {

/// The map that a list of entries stands for: later entries win.
pub open spec fn entries_map<V>(entries: Seq<(String, V)>) -> Map<Seq<char>, V>
    decreases entries.len(),
{
    if entries.len() == 0 {
        Map::empty()
    } else {
        entries_map(entries.drop_last()).insert(entries.last().0@, entries.last().1)
    }
}

/// The names of a list of entries, in order.
pub open spec fn entry_names<V>(entries: Seq<(String, V)>) -> Seq<Seq<char>> {
    Seq::new(entries.len(), |i: int| entries[i].0@)
}

proof fn lemma_entries_dom<V>(entries: Seq<(String, V)>)
    ensures
        entries_map(entries).dom() =~= entry_names(entries).to_set(),
        entries_map(entries).dom().finite(),
    decreases entries.len(),
{
    let names = entry_names(entries);
    if entries.len() == 0 {
        assert(names.to_set() =~= Set::empty());
    } else {
        let rest = entries.drop_last();
        lemma_entries_dom(rest);
        let rest_names = entry_names(rest);
        assert forall|k: Seq<char>| names.to_set().contains(k) <==> (rest_names.to_set().contains(
            k,
        ) || k == entries.last().0@) by {
            if names.to_set().contains(k) {
                let i = choose|i: int| 0 <= i < names.len() && names[i] == k;
                if i < rest.len() {
                    assert(rest_names[i] == k);
                }
            }
            if rest_names.to_set().contains(k) {
                let i = choose|i: int| 0 <= i < rest_names.len() && rest_names[i] == k;
                assert(names[i] == k);
            }
            if k == entries.last().0@ {
                assert(names[entries.len() - 1] == k);
            }
        }
    }
}

proof fn lemma_entries_lookup<V>(entries: Seq<(String, V)>, i: int)
    requires
        0 <= i < entries.len(),
        entry_names(entries).no_duplicates(),
    ensures
        entries_map(entries).contains_key(entries[i].0@),
        entries_map(entries)[entries[i].0@] == entries[i].1,
    decreases entries.len(),
{
    let rest = entries.drop_last();
    let names = entry_names(entries);
    if i < entries.len() - 1 {
        assert forall|a: int, b: int|
            0 <= a < rest.len() && 0 <= b < rest.len() && a != b implies entry_names(rest)[a]
            != entry_names(rest)[b] by {
            assert(names[a] != names[b]);
        }
        lemma_entries_lookup(rest, i);
        assert(names[i] != names[entries.len() - 1]);
    }
}

proof fn lemma_entries_replace<V>(entries: Seq<(String, V)>, i: int, name: String, value: V)
    requires
        0 <= i < entries.len(),
        entry_names(entries).no_duplicates(),
        name@ == entries[i].0@,
    ensures
        entries_map(entries.update(i, (name, value))) == entries_map(entries).insert(
            name@,
            value,
        ),
        entry_names(entries.update(i, (name, value))) == entry_names(entries),
    decreases entries.len(),
{
    let changed = entries.update(i, (name, value));
    let rest = entries.drop_last();
    let names = entry_names(entries);
    assert(entry_names(changed) =~= names);
    if i == entries.len() - 1 {
        assert(changed.drop_last() =~= rest);
        assert(entries_map(changed) =~= entries_map(entries).insert(name@, value));
    } else {
        assert forall|a: int, b: int|
            0 <= a < rest.len() && 0 <= b < rest.len() && a != b implies entry_names(rest)[a]
            != entry_names(rest)[b] by {
            assert(names[a] != names[b]);
        }
        lemma_entries_replace(rest, i, name, value);
        assert(changed.drop_last() =~= rest.update(i, (name, value)));
        assert(names[i] != names[entries.len() - 1]);
        assert(entries_map(changed) =~= entries_map(entries).insert(name@, value));
    }
}

/// A finite map keyed by name.
pub struct NameMap<V> {
    entries: Vec<(String, V)>,
}

impl<V> View for NameMap<V> {
    type V = Map<Seq<char>, V>;

    closed spec fn view(&self) -> Map<Seq<char>, V> {
        entries_map(self.entries@)
    }
}

impl<V> NameMap<V> {
    #[verifier::type_invariant]
    spec fn distinct_names(&self) -> bool {
        entry_names(self.entries@).no_duplicates()
    }

    /// The names in the order in which the entries are walked. Callers may
    /// rely on its being an enumeration of the names, not on the order.
    pub closed spec fn order(&self) -> Seq<Seq<char>> {
        entry_names(self.entries@)
    }

    /// An empty map.
    pub fn new() -> (r: Self)
        ensures
            r@ == Map::<Seq<char>, V>::empty(),
            r.order() == Seq::<Seq<char>>::empty(),
    {
        let r = NameMap { entries: Vec::new() };
        assert(entry_names(r.entries@) =~= Seq::<Seq<char>>::empty());
        r
    }

    /// The number of entries. `order()` lists each name once.
    pub fn len(&self) -> (n: usize)
        ensures
            n == self.order().len(),
            self.order().no_duplicates(),
            self.order().to_set() == self@.dom(),
            self@.dom().finite(),
            n == self@.dom().len(),
    {
        proof {
            use_type_invariant(self);
            lemma_entries_dom(self.entries@);
            self.order().unique_seq_to_set();
        }
        self.entries.len()
    }

    /// The place of `name` in the walk, if it is present.
    pub fn position(&self, name: &str) -> (r: Option<usize>)
        ensures
            match r {
                Some(i) => i < self.order().len() && self.order()[i as int] == name@
                    && self@.contains_key(name@),
                None => !self@.contains_key(name@),
            },
    {
        proof {
            use_type_invariant(self);
            lemma_entries_dom(self.entries@);
        }
        let wanted = String::from_str(name);
        let mut i: usize = 0;
        while i < self.entries.len()
            invariant
                i <= self.entries.len(),
                wanted@ == name@,
                forall|j: int| 0 <= j < i ==> entry_names(self.entries@)[j] != name@,
            decreases self.entries.len() - i,
        {
            if self.entries[i].0 == wanted {
                proof {
                    lemma_entries_dom(self.entries@);
                    assert(entry_names(self.entries@)[i as int] == name@);
                    assert(entry_names(self.entries@).to_set().contains(name@));
                }
                return Some(i);
            }
            i = i + 1;
        }
        None
    }

    /// Whether `name` is present.
    pub fn contains_key(&self, name: &str) -> (r: bool)
        ensures
            r == self@.contains_key(name@),
    {
        self.position(name).is_some()
    }

    /// The value stored under `name`.
    pub fn get(&self, name: &str) -> (r: Option<&V>)
        ensures
            match r {
                Some(v) => self@.contains_key(name@) && *v == self@[name@],
                None => !self@.contains_key(name@),
            },
    {
        match self.position(name) {
            Some(i) => {
                proof {
                    use_type_invariant(self);
                    lemma_entries_lookup(self.entries@, i as int);
                }
                Some(&self.entries[i].1)
            },
            None => None,
        }
    }

    /// The name at place `i` of the walk.
    pub fn name_at(&self, i: usize) -> (r: &String)
        requires
            i < self.order().len(),
        ensures
            r@ == self.order()[i as int],
            self@.contains_key(r@),
    {
        proof {
            use_type_invariant(self);
            lemma_entries_lookup(self.entries@, i as int);
        }
        &self.entries[i].0
    }

    /// The value at place `i` of the walk.
    pub fn value_at(&self, i: usize) -> (r: &V)
        requires
            i < self.order().len(),
        ensures
            self@.contains_key(self.order()[i as int]),
            *r == self@[self.order()[i as int]],
    {
        proof {
            use_type_invariant(self);
            lemma_entries_lookup(self.entries@, i as int);
        }
        &self.entries[i].1
    }

    /// Stores `value` under `name`, replacing what was stored there before.
    pub fn insert(&mut self, name: String, value: V)
        ensures
            final(self)@ == old(self)@.insert(name@, value),
    {
        proof {
            use_type_invariant(&*self);
            lemma_entries_dom(self.entries@);
        }
        let found = self.position(name.as_str());
        let ghost before = self.entries@;
        let mut entries: Vec<(String, V)> = Vec::new();
        proof {
            assert(entry_names(entries@) =~= Seq::<Seq<char>>::empty());
        }
        core::mem::swap(&mut self.entries, &mut entries);
        match found {
            Some(i) => {
                proof {
                    lemma_entries_replace(before, i as int, name, value);
                }
                entries.set(i, (name, value));
            },
            None => {
                proof {
                    assert(before.push((name, value)).drop_last() =~= before);
                    let names = entry_names(before.push((name, value)));
                    assert forall|a: int, b: int|
                        0 <= a < names.len() && 0 <= b < names.len() && a != b implies names[a]
                        != names[b] by {
                        if a < before.len() {
                            assert(entry_names(before)[a] == names[a]);
                            assert(entry_names(before).to_set().contains(names[a]));
                        }
                        if b < before.len() {
                            assert(entry_names(before)[b] == names[b]);
                            assert(entry_names(before).to_set().contains(names[b]));
                        }
                    }
                }
                entries.push((name, value));
            },
        }
        self.entries = entries;
    }
}

} // verus!
