//! A table from request ids to what is kept of each request.

use vstd::prelude::*;

verus! {

/// A table that leads each of its keys to one value.
pub struct RequestTable<V> {
    entries: Vec<(String, V)>,
}

spec fn has_key<V>(entries: Seq<(String, V)>, key: Seq<char>) -> bool {
    exists|i: int| 0 <= i < entries.len() && #[trigger] entries[i].0@ == key
}

spec fn key_index<V>(entries: Seq<(String, V)>, key: Seq<char>) -> int {
    choose|i: int| 0 <= i < entries.len() && #[trigger] entries[i].0@ == key
}

spec fn distinct_keys<V>(entries: Seq<(String, V)>) -> bool {
    forall|i: int, j: int|
        0 <= i < j < entries.len() ==> #[trigger] entries[i].0@ != #[trigger] entries[j].0@
}

spec fn entries_map<V>(entries: Seq<(String, V)>) -> Map<Seq<char>, V> {
    Map::new(|key: Seq<char>| has_key(entries, key), |key: Seq<char>| entries[key_index(entries, key)].1)
}

impl<V> View for RequestTable<V> {
    type V = Map<Seq<char>, V>;

    closed spec fn view(&self) -> Map<Seq<char>, V> {
        entries_map(self.entries@)
    }
}

impl<V> RequestTable<V> {
    #[verifier::type_invariant]
    spec fn well_formed(self) -> bool {
        distinct_keys(self.entries@)
    }

    /// An empty table.
    pub fn new() -> (r: Self)
        ensures
            r@ == Map::<Seq<char>, V>::empty(),
    {
        let r = RequestTable { entries: Vec::new() };
        assert(r@ =~= Map::<Seq<char>, V>::empty());
        r
    }

    fn position(&self, key: &str) -> (r: Option<usize>)
        ensures
            match r {
                Some(i) => i < self.entries@.len() && self.entries@[i as int].0@ == key@,
                None => !has_key(self.entries@, key@),
            },
    {
        let wanted = key.to_owned();
        let mut i: usize = 0;
        while i < self.entries.len()
            invariant
                i <= self.entries@.len(),
                wanted@ == key@,
                forall|j: int| 0 <= j < i ==> #[trigger] self.entries@[j].0@ != key@,
            decreases self.entries@.len() - i,
        {
            if self.entries[i].0 == wanted {
                return Some(i);
            }
            i += 1;
        }
        None
    }

    /// What the key leads to.
    pub fn get(&self, key: &str) -> (r: Option<&V>)
        ensures
            match r {
                Some(value) => self@.contains_key(key@) && self@[key@] == *value,
                None => !self@.contains_key(key@),
            },
    {
        proof {
            use_type_invariant(self);
        }
        match self.position(key) {
            Some(i) => {
                assert(has_key(self.entries@, key@));
                Some(&self.entries[i].1)
            },
            None => None,
        }
    }

    /// Takes the key out of the table, and hands out what it led to.
    pub fn remove(&mut self, key: &str) -> (r: Option<V>)
        ensures
            final(self)@ == old(self)@.remove(key@),
            r == old(self)@.get(key@),
    {
        proof {
            use_type_invariant(&*self);
        }
        let ghost before = self.entries@;
        let r = match self.position(key) {
            Some(i) => {
                let mut entries: Vec<(String, V)> = Vec::new();
                std::mem::swap(&mut entries, &mut self.entries);
                let removed = entries.remove(i);
                proof {
                    lemma_removed(before, i as int, key@);
                }
                self.entries = entries;
                Some(removed.1)
            },
            None => {
                assert(entries_map(before) =~= entries_map(before).remove(key@));
                None
            },
        };
        r
    }

    /// Makes the key lead to `value`, whatever it led to before.
    pub fn insert(&mut self, key: String, value: V)
        ensures
            final(self)@ == old(self)@.insert(key@, value),
    {
        let _ = self.remove(key.as_str());
        proof {
            use_type_invariant(&*self);
            assert(!self@.contains_key(key@));
            lemma_pushed(self.entries@, (key, value));
            assert(old(self)@.remove(key@).insert(key@, value) =~= old(self)@.insert(key@, value));
        }
        let mut entries: Vec<(String, V)> = Vec::new();
        std::mem::swap(&mut entries, &mut self.entries);
        entries.push((key, value));
        self.entries = entries;
    }

    /// Takes every key out of the table.
    pub fn clear(&mut self)
        ensures
            final(self)@ == Map::<Seq<char>, V>::empty(),
    {
        self.entries = Vec::new();
        assert(self@ =~= Map::<Seq<char>, V>::empty());
    }

    /// The keys in the table's own order, each once.
    pub closed spec fn keys(self) -> Seq<Seq<char>> {
        Seq::new(self.entries@.len(), |i: int| self.entries@[i].0@)
    }

    /// The entry at a place in the table's own order.
    pub fn entry(&self, i: usize) -> (r: &V)
        requires
            i < self.keys().len(),
        ensures
            self@.contains_key(self.keys()[i as int]),
            *r == self@[self.keys()[i as int]],
    {
        proof {
            use_type_invariant(self);
            assert(self.entries@[i as int].0@ == self.keys()[i as int]);
            assert(has_key(self.entries@, self.keys()[i as int]));
        }
        &self.entries[i].1
    }

    /// The number of places in the table's own order.
    pub fn places(&self) -> (r: usize)
        ensures
            r == self.keys().len(),
            self.keys().no_duplicates(),
            self.keys().to_set() == self@.dom(),
    {
        proof {
            use_type_invariant(self);
            assert forall|i: int, j: int|
                0 <= i < self.keys().len() && 0 <= j < self.keys().len() && i != j implies self.keys()[i]
                != self.keys()[j] by {
                assert(self.entries@[i].0@ == self.keys()[i]);
                assert(self.entries@[j].0@ == self.keys()[j]);
            }
            assert forall|key: Seq<char>| self.keys().to_set().contains(key) <==> self@.dom().contains(
                key,
            ) by {
                if has_key(self.entries@, key) {
                    let i = key_index(self.entries@, key);
                    assert(self.keys()[i] == key);
                }
                if self.keys().contains(key) {
                    let i = choose|i: int| 0 <= i < self.keys().len() && self.keys()[i] == key;
                    assert(self.entries@[i].0@ == key);
                }
            }
            assert(self.keys().to_set() =~= self@.dom());
        }
        self.entries.len()
    }
}

proof fn lemma_removed<V>(entries: Seq<(String, V)>, i: int, key: Seq<char>)
    requires
        distinct_keys(entries),
        0 <= i < entries.len(),
        entries[i].0@ == key,
    ensures
        distinct_keys(entries.remove(i)),
        entries_map(entries.remove(i)) == entries_map(entries).remove(key),
        entries_map(entries).get(key) == Some(entries[i].1),
{
    let after = entries.remove(i);
    assert(has_key(entries, key));
    assert forall|a: int, b: int| 0 <= a < b < after.len() implies #[trigger] after[a].0@
        != #[trigger] after[b].0@ by {
        let a0 = if a < i { a } else { a + 1 };
        let b0 = if b < i { b } else { b + 1 };
        assert(after[a] == entries[a0]);
        assert(after[b] == entries[b0]);
    }
    assert forall|k: Seq<char>| k != key && has_key(entries, k) implies has_key(after, k)
        && after[key_index(after, k)] == entries[key_index(entries, k)] by {
        let j = key_index(entries, k);
        let j0 = if j < i { j } else { j - 1 };
        assert(after[j0] == entries[j]);
    }
    assert forall|k: Seq<char>| has_key(after, k) implies k != key && has_key(entries, k) by {
        let j = key_index(after, k);
        let j0 = if j < i { j } else { j + 1 };
        assert(after[j] == entries[j0]);
    }
    assert(entries_map(after) =~= entries_map(entries).remove(key));
}

proof fn lemma_pushed<V>(entries: Seq<(String, V)>, entry: (String, V))
    requires
        distinct_keys(entries),
        !has_key(entries, entry.0@),
    ensures
        distinct_keys(entries.push(entry)),
        entries_map(entries.push(entry)) == entries_map(entries).insert(entry.0@, entry.1),
{
    let after = entries.push(entry);
    assert(after[entries.len() as int] == entry);
    assert forall|a: int, b: int| 0 <= a < b < after.len() implies #[trigger] after[a].0@
        != #[trigger] after[b].0@ by {
        assert(after[a] == entries[a]);
        if b < entries.len() {
            assert(after[b] == entries[b]);
        }
    }
    assert forall|k: Seq<char>| has_key(entries, k) implies has_key(after, k)
        && after[key_index(after, k)] == entries[key_index(entries, k)] by {
        let j = key_index(entries, k);
        assert(after[j] == entries[j]);
    }
    assert forall|k: Seq<char>| has_key(after, k) && k != entry.0@ implies has_key(entries, k) by {
        let j = key_index(after, k);
        assert(after[j] == entries[j]);
    }
    assert(entries_map(after) =~= entries_map(entries).insert(entry.0@, entry.1));
}

} // verus!
