//! A map keyed by strings, kept as a vector of entries whose keys are
//! distinct. It stands for the `HashMap<String, _>` of the translation
//! caches, and its model is a `Map` from the keys' characters to the values'
//! models.
use vstd::prelude::*;

verus! {

/// Whether no two entries have the same key.
pub open spec fn keys_distinct<V>(s: Seq<(String, V)>) -> bool {
    forall|i: int, j: int| 0 <= i < j < s.len() ==> s[i].0@ != s[j].0@
}

/// Whether some entry has the key `k`.
pub open spec fn has_key<V>(s: Seq<(String, V)>, k: Seq<char>) -> bool {
    exists|i: int| 0 <= i < s.len() && s[i].0@ == k
}

/// The position of an entry with key `k`.
pub open spec fn key_index<V>(s: Seq<(String, V)>, k: Seq<char>) -> int {
    choose|i: int| 0 <= i < s.len() && s[i].0@ == k
}

/// The map that the entries describe.
pub open spec fn entries_map<V: View>(s: Seq<(String, V)>) -> Map<Seq<char>, V::V> {
    Map::new(|k: Seq<char>| has_key(s, k), |k: Seq<char>| s[key_index(s, k)].1@)
}

/// A map keyed by strings.
#[derive(Debug)]
pub struct Table<V> {
    entries: Vec<(String, V)>,
}

impl<V: View> View for Table<V> {
    type V = Map<Seq<char>, V::V>;

    closed spec fn view(&self) -> Map<Seq<char>, V::V> {
        entries_map(self.entries@)
    }
}

/// With distinct keys, the entry at `i` is the one the map gives for its key.
pub proof fn lemma_entry_is_mapped<V: View>(s: Seq<(String, V)>, i: int)
    requires
        keys_distinct(s),
        0 <= i < s.len(),
    ensures
        entries_map(s).contains_key(s[i].0@),
        entries_map(s)[s[i].0@] == s[i].1@,
        key_index(s, s[i].0@) == i,
{
    assert(has_key(s, s[i].0@));
    let j = key_index(s, s[i].0@);
    assert(s[j].0@ == s[i].0@);
    if j != i {
        if j < i {
            assert(s[j].0@ != s[i].0@);
        } else {
            assert(s[i].0@ != s[j].0@);
        }
    }
}

impl<V> Table<V> {
    /// The entries, in the order they are kept.
    pub closed spec fn entries(self) -> Seq<(String, V)> {
        self.entries@
    }

    /// The entries have distinct keys.
    #[verifier::type_invariant]
    closed spec fn distinct(self) -> bool {
        keys_distinct(self.entries@)
    }
}

impl<V: View> Table<V> {
    /// Every key of the model is the key of an entry.
    pub proof fn lemma_key_has_entry(self, k: Seq<char>)
        requires
            self@.contains_key(k),
        ensures
            exists|i: int| 0 <= i < self.entries().len() && (#[trigger] self.entries()[i]).0@ == k,
    {
        let i = key_index(self.entries@, k);
        assert(self.entries()[i].0@ == k);
    }

    /// An empty table.
    pub fn new() -> (r: Self)
        ensures
            r@ == Map::<Seq<char>, V::V>::empty(),
            r.entries().len() == 0,
    {
        let r = Table { entries: Vec::new() };
        assert(r@ =~= Map::<Seq<char>, V::V>::empty());
        r
    }

    /// The number of entries.
    pub fn len(&self) -> (r: usize)
        ensures
            r == self.entries().len(),
    {
        self.entries.len()
    }

    /// The key and value of entry `i`.
    pub fn entry(&self, i: usize) -> (r: (&String, &V))
        requires
            i < self.entries().len(),
        ensures
            *r.0 == self.entries()[i as int].0,
            *r.1 == self.entries()[i as int].1,
            self@.contains_key(r.0@),
            self@[r.0@] == r.1@,
    {
        proof {
            use_type_invariant(self);
            lemma_entry_is_mapped(self.entries@, i as int);
        }
        let e = &self.entries[i];
        (&e.0, &e.1)
    }

    /// The position of the entry whose key is `key`.
    fn find(&self, key: &str) -> (r: Option<usize>)
        ensures
            r matches Some(i) ==> i < self.entries@.len() && self.entries@[i as int].0@ == key@,
            r is None ==> !has_key(self.entries@, key@),
    {
        let wanted = key.to_owned();
        let mut i: usize = 0;
        while i < self.entries.len()
            invariant
                wanted@ == key@,
                i <= self.entries@.len(),
                forall|j: int| 0 <= j < i ==> self.entries@[j].0@ != key@,
            decreases self.entries.len() - i,
        {
            if self.entries[i].0 == wanted {
                return Some(i);
            }
            i = i + 1;
        }
        None
    }

    /// The value kept under `key`, if any.
    pub fn get(&self, key: &str) -> (r: Option<&V>)
        ensures
            r matches Some(v) ==> self@.contains_key(key@) && self@[key@] == v@,
            r is None ==> !self@.contains_key(key@),
    {
        proof {
            use_type_invariant(self);
        }
        match self.find(key) {
            Some(i) => {
                proof {
                    lemma_entry_is_mapped(self.entries@, i as int);
                }
                Some(&self.entries[i].1)
            },
            None => None,
        }
    }

    /// Whether a value is kept under `key`.
    pub fn contains_key(&self, key: &str) -> (r: bool)
        ensures
            r == self@.contains_key(key@),
    {
        self.get(key).is_some()
    }

    /// Keeps `value` under `key`, replacing what was kept there.
    pub fn insert(&mut self, key: String, value: V)
        ensures
            final(self)@ == old(self)@.insert(key@, value@),
    {
        proof {
            use_type_invariant(&*self);
        }
        let ghost old_entries = self.entries@;
        let ghost k = key@;
        let ghost val = value@;
        match self.find(key.as_str()) {
            Some(i) => {
                let mut entries: Vec<(String, V)> = Vec::new();
                std::mem::swap(&mut entries, &mut self.entries);
                entries.set(i, (key, value));
                proof {
                    let s = entries@;
                    assert(s == old_entries.update(i as int, s[i as int]));
                    assert(keys_distinct(s)) by {
                        assert forall|a: int, b: int| 0 <= a < b < s.len() implies s[a].0@
                            != s[b].0@ by {
                            if a != i && b != i {
                                assert(old_entries[a].0@ != old_entries[b].0@);
                            } else if a == i {
                                assert(old_entries[a].0@ != old_entries[b].0@);
                            } else {
                                assert(old_entries[a].0@ != old_entries[b].0@);
                            }
                        }
                    }
                    assert(entries_map(s) =~= entries_map(old_entries).insert(k, val)) by {
                        lemma_entry_is_mapped(s, i as int);
                        assert forall|x: Seq<char>| #[trigger]
                            entries_map(s).contains_key(x) implies entries_map(
                            old_entries,
                        ).insert(k, val).contains_key(x) by {
                            let j = key_index(s, x);
                            if j != i {
                                assert(old_entries[j].0@ == x);
                            }
                        }
                        assert forall|x: Seq<char>| #[trigger]
                            entries_map(old_entries).insert(k, val).contains_key(
                            x,
                        ) implies entries_map(s).contains_key(x) && entries_map(s)[x]
                            == entries_map(old_entries).insert(k, val)[x] by {
                            if x == k {
                                assert(s[i as int].0@ == x);
                            } else {
                                let j = key_index(old_entries, x);
                                assert(s[j].0@ == x);
                                lemma_entry_is_mapped(s, j);
                                lemma_entry_is_mapped(old_entries, j);
                            }
                        }
                    }
                }
                self.entries = entries;
            },
            None => {
                let mut entries: Vec<(String, V)> = Vec::new();
                std::mem::swap(&mut entries, &mut self.entries);
                entries.push((key, value));
                proof {
                    let s = entries@;
                    let n = old_entries.len() as int;
                    assert(keys_distinct(s)) by {
                        assert forall|a: int, b: int| 0 <= a < b < s.len() implies s[a].0@
                            != s[b].0@ by {
                            if b == n {
                                assert(!has_key(old_entries, k));
                                assert(old_entries[a].0@ != k);
                            } else {
                                assert(old_entries[a].0@ != old_entries[b].0@);
                            }
                        }
                    }
                    assert(entries_map(s) =~= entries_map(old_entries).insert(k, val)) by {
                        lemma_entry_is_mapped(s, n);
                        assert forall|x: Seq<char>| #[trigger]
                            entries_map(s).contains_key(x) implies entries_map(
                            old_entries,
                        ).insert(k, val).contains_key(x) by {
                            let j = key_index(s, x);
                            if j != n {
                                assert(old_entries[j].0@ == x);
                            }
                        }
                        assert forall|x: Seq<char>| #[trigger]
                            entries_map(old_entries).insert(k, val).contains_key(
                            x,
                        ) implies entries_map(s).contains_key(x) && entries_map(s)[x]
                            == entries_map(old_entries).insert(k, val)[x] by {
                            if x == k {
                                assert(s[n].0@ == x);
                            } else {
                                let j = key_index(old_entries, x);
                                assert(s[j].0@ == x);
                                lemma_entry_is_mapped(s, j);
                                lemma_entry_is_mapped(old_entries, j);
                            }
                        }
                    }
                }
                self.entries = entries;
            },
        }
    }
}

} // verus!
