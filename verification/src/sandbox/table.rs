//! A table of entries keyed by sandbox id, viewed as a finite map.

use vstd::prelude::*;

use crate::sandbox::SandboxError;
use crate::text::str_eq;

verus! {

/// The table after `insert`: the entry for `key` is set, replacing any with that id.
pub open spec fn table_after_insert<E>(before: Map<Seq<char>, E>, key: Seq<char>, value: E) -> Map<
    Seq<char>,
    E,
> {
    before.insert(key, value)
}

/// The table after `remove` or `take`: the entry for `key`, if any, is gone.
pub open spec fn table_after_remove<E>(before: Map<Seq<char>, E>, key: Seq<char>) -> Map<Seq<char>, E> {
    before.remove(key)
}

/// Entries keyed by sandbox id; no id occurs twice.
pub struct KeyedTable<E> {
    entries: Vec<(String, E)>,
}

impl<E> View for KeyedTable<E> {
    type V = Map<Seq<char>, E>;

    closed spec fn view(&self) -> Map<Seq<char>, E> {
        Map::new(
            |k: Seq<char>| exists|i: int| 0 <= i < self.entries@.len() && #[trigger] self.entries@[i].0@ == k,
            |k: Seq<char>|
                self.entries@[choose|i: int|
                    0 <= i < self.entries@.len() && #[trigger] self.entries@[i].0@ == k].1,
        )
    }
}

impl<E> KeyedTable<E> {
    #[verifier::type_invariant]
    closed spec fn keys_unique(&self) -> bool {
        forall|i: int, j: int|
            0 <= i < self.entries@.len() && 0 <= j < self.entries@.len() && i != j
                ==> #[trigger] self.entries@[i].0@ != #[trigger] self.entries@[j].0@
    }

    proof fn lemma_entry_in_view(&self, i: int)
        requires
            self.keys_unique(),
            0 <= i < self.entries@.len(),
        ensures
            self@.contains_key(self.entries@[i].0@),
            self@[self.entries@[i].0@] == self.entries@[i].1,
    {
        let k = self.entries@[i].0@;
        assert(self.entries@[i].0@ == k);
        let j = choose|j: int| 0 <= j < self.entries@.len() && #[trigger] self.entries@[j].0@ == k;
        assert(j == i);
    }

    /// An empty table.
    pub fn new() -> (t: Self)
        ensures
            t@ == Map::<Seq<char>, E>::empty(),
    {
        let t = KeyedTable { entries: Vec::new() };
        assert(t@ =~= Map::<Seq<char>, E>::empty());
        t
    }

    /// The number of entries.
    pub fn len(&self) -> (n: usize)
        ensures
            n == self@.len(),
            self@.dom().finite(),
    {
        proof {
            use_type_invariant(self);
            self.lemma_dom_is_keys();
        }
        self.entries.len()
    }

    proof fn lemma_dom_is_keys(&self)
        requires
            self.keys_unique(),
        ensures
            self@.dom() == self.entries@.map_values(|e: (String, E)| e.0@).to_set(),
            self@.dom().finite(),
            self@.len() == self.entries@.len(),
    {
        let keys = self.entries@.map_values(|e: (String, E)| e.0@);
        assert forall|k: Seq<char>| self@.dom().contains(k) <==> keys.to_set().contains(k) by {
            if self@.dom().contains(k) {
                let i = choose|i: int| 0 <= i < self.entries@.len() && #[trigger] self.entries@[i].0@ == k;
                assert(keys[i] == k);
            }
            if keys.to_set().contains(k) {
                let i = choose|i: int| 0 <= i < keys.len() && keys[i] == k;
                assert(self.entries@[i].0@ == k);
            }
        }
        assert(self@.dom() =~= keys.to_set());
        assert(keys.no_duplicates()) by {
            assert forall|i: int, j: int| 0 <= i < keys.len() && 0 <= j < keys.len() && i != j
                implies keys[i] != keys[j] by {
                assert(self.entries@[i].0@ != self.entries@[j].0@);
            }
        }
        keys.unique_seq_to_set();
    }

    fn position(&self, key: &str) -> (r: Option<usize>)
        ensures
            match r {
                Some(i) => i < self.entries@.len() && self.entries@[i as int].0@ == key@,
                None => forall|i: int| 0 <= i < self.entries@.len() ==> self.entries@[i].0@ != key@,
            },
    {
        let n = self.entries.len();
        for i in 0..n
            invariant
                n == self.entries@.len(),
                forall|j: int| 0 <= j < i ==> self.entries@[j].0@ != key@,
        {
            if str_eq(self.entries[i].0.as_str(), key) {
                return Some(i);
            }
        }
        None
    }

    /// The entry with this id, if any.
    pub fn get(&self, key: &str) -> (r: Option<&E>)
        ensures
            r is Some == self@.contains_key(key@),
            r matches Some(v) ==> *v == self@[key@],
    {
        proof {
            use_type_invariant(self);
        }
        match self.position(key) {
            Some(i) => {
                proof {
                    self.lemma_entry_in_view(i as int);
                }
                Some(&self.entries[i].1)
            },
            None => None,
        }
    }

    /// The entry with this id, or a "sandbox not found" error naming the id.
    pub fn require(&self, key: &str) -> (r: Result<&E, SandboxError>)
        ensures
            r is Ok == self@.contains_key(key@),
            r matches Ok(v) ==> *v == self@[key@],
            r matches Err(SandboxError::NotFound(id)) && id@ == key@ || r is Ok,
    {
        match self.get(key) {
            Some(v) => Ok(v),
            None => Err(SandboxError::not_found(key)),
        }
    }

    /// Sets the entry for `key`, replacing any entry with the same id.
    pub fn insert(&mut self, key: String, value: E)
        ensures
            final(self)@ == table_after_insert(old(self)@, key@, value),
    {
        proof {
            use_type_invariant(&*self);
        }
        let ghost k = key@;
        let ghost old_entries = self.entries@;
        match self.position(key.as_str()) {
            Some(i) => {
                let mut entries = Vec::new();
                std::mem::swap(&mut entries, &mut self.entries);
                entries.set(i, (key, value));
                self.entries = entries;
                proof {
                    assert(self.entries@[i as int].0@ == k);
                    assert(self.entries@ == old_entries.update(i as int, self.entries@[i as int]));
                    assert forall|a: int, b: int|
                        0 <= a < self.entries@.len() && 0 <= b < self.entries@.len() && a != b
                            implies #[trigger] self.entries@[a].0@ != #[trigger] self.entries@[b].0@ by {
                        assert(old_entries[a].0@ != old_entries[b].0@);
                    }
                }
            },
            None => {
                let mut entries = Vec::new();
                std::mem::swap(&mut entries, &mut self.entries);
                entries.push((key, value));
                self.entries = entries;
                proof {
                    assert(self.entries@[old_entries.len() as int].0@ == k);
                    assert forall|a: int, b: int|
                        0 <= a < self.entries@.len() && 0 <= b < self.entries@.len() && a != b
                            implies #[trigger] self.entries@[a].0@ != #[trigger] self.entries@[b].0@ by {
                        if a < old_entries.len() && b < old_entries.len() {
                            assert(old_entries[a].0@ != old_entries[b].0@);
                        }
                    }
                }
            },
        }
        proof {
            let old_view = old(self)@;
            assert(old_view == Map::new(
                |q: Seq<char>| exists|i: int| 0 <= i < old_entries.len() && #[trigger] old_entries[i].0@ == q,
                |q: Seq<char>|
                    old_entries[choose|i: int|
                        0 <= i < old_entries.len() && #[trigger] old_entries[i].0@ == q].1,
            ));
            assert forall|q: Seq<char>| #[trigger] self@.contains_key(q) <==> old_view.insert(k, value).contains_key(q) by {
                if self@.contains_key(q) && q != k {
                    let i = choose|i: int| 0 <= i < self.entries@.len() && #[trigger] self.entries@[i].0@ == q;
                    assert(old_entries[i].0@ == q);
                }
                if old_view.contains_key(q) && q != k {
                    let i = choose|i: int| 0 <= i < old_entries.len() && #[trigger] old_entries[i].0@ == q;
                    assert(self.entries@[i].0@ == q);
                }
            }
            assert forall|q: Seq<char>| #[trigger] self@.contains_key(q) implies self@[q] == old_view.insert(k, value)[q] by {
                let i = choose|i: int| 0 <= i < self.entries@.len() && #[trigger] self.entries@[i].0@ == q;
                self.lemma_entry_in_view(i);
                if q != k {
                    assert(old_entries[i].0@ == q);
                    assert(old_entries[i] == self.entries@[i]);
                    old(self).lemma_entry_in_view(i);
                }
            }
            assert(self@ =~= old_view.insert(k, value));
        }
    }

    /// Removes and returns the entry with this id, if any.
    pub fn remove(&mut self, key: &str) -> (r: Option<E>)
        ensures
            final(self)@ == table_after_remove(old(self)@, key@),
            r is Some == old(self)@.contains_key(key@),
            r matches Some(v) ==> v == old(self)@[key@],
    {
        proof {
            use_type_invariant(&*self);
        }
        let ghost old_entries = self.entries@;
        match self.position(key) {
            Some(i) => {
                proof {
                    old(self).lemma_entry_in_view(i as int);
                }
                let mut entries = Vec::new();
                std::mem::swap(&mut entries, &mut self.entries);
                let removed = entries.remove(i);
                self.entries = entries;
                proof {
                    assert(self.entries@ == old_entries.remove(i as int));
                    assert forall|a: int, b: int|
                        0 <= a < self.entries@.len() && 0 <= b < self.entries@.len() && a != b
                            implies #[trigger] self.entries@[a].0@ != #[trigger] self.entries@[b].0@ by {
                        let oa = if a < i { a } else { a + 1 };
                        let ob = if b < i { b } else { b + 1 };
                        assert(self.entries@[a] == old_entries[oa]);
                        assert(self.entries@[b] == old_entries[ob]);
                        assert(old_entries[oa].0@ != old_entries[ob].0@);
                    }
                    let old_view = old(self)@;
                    assert forall|q: Seq<char>| #[trigger] self@.contains_key(q) <==> old_view.remove(key@).contains_key(q) by {
                        if self@.contains_key(q) {
                            let a = choose|a: int| 0 <= a < self.entries@.len() && #[trigger] self.entries@[a].0@ == q;
                            let oa = if a < i { a } else { a + 1 };
                            assert(self.entries@[a] == old_entries[oa]);
                            assert(old_entries[oa].0@ == q);
                            assert(oa != i);
                            assert(old_entries[i as int].0@ != old_entries[oa].0@);
                        }
                        if old_view.contains_key(q) && q != key@ {
                            let oa = choose|oa: int| 0 <= oa < old_entries.len() && #[trigger] old_entries[oa].0@ == q;
                            assert(oa != i);
                            let a = if oa < i { oa } else { oa - 1 };
                            assert(self.entries@[a] == old_entries[oa]);
                        }
                    }
                    assert forall|q: Seq<char>| #[trigger] self@.contains_key(q) implies self@[q] == old_view.remove(key@)[q] by {
                        let a = choose|a: int| 0 <= a < self.entries@.len() && #[trigger] self.entries@[a].0@ == q;
                        self.lemma_entry_in_view(a);
                        let oa = if a < i { a } else { a + 1 };
                        assert(self.entries@[a] == old_entries[oa]);
                        old(self).lemma_entry_in_view(oa);
                    }
                    assert(self@ =~= old_view.remove(key@));
                }
                Some(removed.1)
            },
            None => {
                proof {
                    assert(!old(self)@.contains_key(key@));
                    assert(self@ =~= old(self)@.remove(key@));
                }
                None
            },
        }
    }

    /// Removes and returns the entry with this id, or a "sandbox not found" error naming the id.
    pub fn take(&mut self, key: &str) -> (r: Result<E, SandboxError>)
        ensures
            final(self)@ == table_after_remove(old(self)@, key@),
            r is Ok == old(self)@.contains_key(key@),
            r matches Ok(v) ==> v == old(self)@[key@],
            r matches Err(SandboxError::NotFound(id)) && id@ == key@ || r is Ok,
    {
        match self.remove(key) {
            Some(v) => Ok(v),
            None => Err(SandboxError::not_found(key)),
        }
    }
}

/// `remove` undoes `insert` of an id the table lacked: the table is back as it was.
pub proof fn lemma_remove_undoes_insert<E>(before: Map<Seq<char>, E>, key: Seq<char>, value: E)
    requires
        !before.contains_key(key),
    ensures
        table_after_remove(table_after_insert(before, key, value), key) == before,
{
    assert(table_after_remove(table_after_insert(before, key, value), key) =~= before);
}

/// After `insert`, `get` finds the inserted entry under its id; after `take` or `remove`
/// of an id, the id is not found any more (`get` gives `None`, `require` and `take` fail
/// with "sandbox not found"). Either leaves the entries under other ids as they were.
pub proof fn lemma_taken_entry_is_not_found<E>(
    before: Map<Seq<char>, E>,
    key: Seq<char>,
    value: E,
    other: Seq<char>,
)
    requires
        other != key,
    ensures
        table_after_insert(before, key, value).contains_key(key),
        table_after_insert(before, key, value)[key] == value,
        !table_after_remove(before, key).contains_key(key),
        table_after_insert(before, key, value).contains_key(other) == before.contains_key(other),
        table_after_remove(before, key).contains_key(other) == before.contains_key(other),
        before.contains_key(other) ==> table_after_insert(before, key, value)[other] == before[other],
        before.contains_key(other) ==> table_after_remove(before, key)[other] == before[other],
{
}

} // verus!
