//! A map from text keys to text values with a proved view.
use vstd::prelude::*;

verus! {

broadcast use vstd::string::group_string_axioms;

/// No two entries of `entries` share a key.
pub open spec fn keys_distinct(entries: Seq<(String, String)>) -> bool {
    forall|i: int, j: int|
        0 <= i < entries.len() && 0 <= j < entries.len() && i != j ==> #[trigger] entries[i].0@
            != #[trigger] entries[j].0@
}

/// Some entry of `entries` has the key `k`.
pub open spec fn has_key(entries: Seq<(String, String)>, k: Seq<char>) -> bool {
    exists|i: int| 0 <= i < entries.len() && #[trigger] entries[i].0@ == k
}

/// The position of an entry with the key `k`.
pub open spec fn key_index(entries: Seq<(String, String)>, k: Seq<char>) -> int {
    choose|i: int| 0 <= i < entries.len() && #[trigger] entries[i].0@ == k
}

/// The text map that `entries` lists.
pub open spec fn entries_map(entries: Seq<(String, String)>) -> Map<Seq<char>, Seq<char>> {
    Map::new(|k: Seq<char>| has_key(entries, k), |k: Seq<char>| entries[key_index(entries, k)].1@)
}

/// A map from text keys to text values, kept as a list of distinct keys.
///
/// It holds what the launcher keeps per game (download URLs, installed
/// versions); its view is the mathematical map from key to value.
#[derive(Debug)]
pub struct StringMap {
    entries: Vec<(String, String)>,
}

impl View for StringMap {
    type V = Map<Seq<char>, Seq<char>>;

    closed spec fn view(&self) -> Map<Seq<char>, Seq<char>> {
        entries_map(self.entries@)
    }
}

impl StringMap {
    #[verifier::type_invariant]
    spec fn inv(self) -> bool {
        keys_distinct(self.entries@)
    }

    /// An empty map.
    pub fn new() -> (m: StringMap)
        ensures
            m@ == Map::<Seq<char>, Seq<char>>::empty(),
    {
        let m = StringMap { entries: Vec::new() };
        assert(m@ =~= Map::<Seq<char>, Seq<char>>::empty());
        m
    }

    /// The number of keys.
    pub fn len(&self) -> (n: usize)
        ensures
            n == self@.dom().len(),
            self@.dom().finite(),
    {
        proof {
            use_type_invariant(self);
            self.lemma_dom_len();
        }
        self.entries.len()
    }

    proof fn lemma_dom_len(self)
        requires
            keys_distinct(self.entries@),
        ensures
            self@.dom().finite(),
            self@.dom().len() == self.entries@.len(),
    {
        let keys = self.entries@.map_values(|e: (String, String)| e.0@);
        assert(self@.dom() =~= keys.to_set()) by {
            assert forall|k: Seq<char>| self@.dom().contains(k) implies keys.to_set().contains(k) by {
                let i = key_index(self.entries@, k);
                assert(keys[i] == k);
            }
            assert forall|k: Seq<char>| keys.to_set().contains(k) implies self@.dom().contains(k) by {
                let i = choose|i: int| 0 <= i < keys.len() && keys[i] == k;
                assert(self.entries@[i].0@ == k);
            }
        }
        assert(keys.no_duplicates()) by {
            assert forall|i: int, j: int|
                0 <= i < keys.len() && 0 <= j < keys.len() && i != j implies keys[i] != keys[j] by {
                assert(self.entries@[i].0@ != self.entries@[j].0@);
            }
        }
        keys.unique_seq_to_set();
    }

    /// Position of the entry with key `key`, if any.
    fn position(&self, key: &str) -> (res: Option<usize>)
        ensures
            match res {
                Some(i) => i < self.entries@.len() && self.entries@[i as int].0@ == key@,
                None => !has_key(self.entries@, key@),
            },
    {
        let k = String::from_str(key);
        let mut i: usize = 0;
        while i < self.entries.len()
            invariant
                k@ == key@,
                i <= self.entries@.len(),
                forall|j: int| 0 <= j < i ==> #[trigger] self.entries@[j].0@ != key@,
            decreases self.entries@.len() - i,
        {
            if self.entries[i].0 == k {
                return Some(i);
            }
            i = i + 1;
        }
        None
    }

    /// The value stored under `key`.
    pub fn get(&self, key: &str) -> (res: Option<&String>)
        ensures
            match res {
                Some(v) => self@.contains_key(key@) && v@ == self@[key@],
                None => !self@.contains_key(key@),
            },
    {
        proof {
            use_type_invariant(self);
        }
        match self.position(key) {
            Some(i) => {
                let ghost j = key_index(self.entries@, key@);
                assert(self.entries@[j].0@ == key@);
                Some(&self.entries[i].1)
            },
            None => None,
        }
    }

    /// Whether `key` has a value.
    pub fn contains_key(&self, key: &str) -> (res: bool)
        ensures
            res == self@.contains_key(key@),
    {
        self.get(key).is_some()
    }

    /// Stores `value` under `key`, replacing what was stored there.
    pub fn insert(&mut self, key: String, value: String)
        ensures
            final(self)@ == old(self)@.insert(key@, value@),
    {
        proof {
            use_type_invariant(&*self);
        }
        let ghost old_entries = self.entries@;
        let pos = self.position(key.as_str());
        let mut entries = Vec::new();
        std::mem::swap(&mut entries, &mut self.entries);
        let ghost k = key@;
        let ghost v = value@;
        match pos {
            Some(i) => {
                entries.set(i, (key, value));
                assert(keys_distinct(entries@)) by {
                    assert forall|a: int, b: int|
                        0 <= a < entries@.len() && 0 <= b < entries@.len() && a != b implies
                        #[trigger] entries@[a].0@ != #[trigger] entries@[b].0@ by {
                        if a != i && b != i {
                            assert(old_entries[a].0@ != old_entries[b].0@);
                        } else if a == i {
                            assert(old_entries[i as int].0@ != old_entries[b].0@);
                        } else {
                            assert(old_entries[i as int].0@ != old_entries[a].0@);
                        }
                    }
                }
                assert(entries_map(entries@) =~= entries_map(old_entries).insert(k, v)) by {
                    assert forall|x: Seq<char>| #[trigger]
                        entries_map(entries@).contains_key(x) == entries_map(
                            old_entries,
                        ).insert(k, v).contains_key(x) by {
                        if has_key(old_entries, x) {
                            let j = key_index(old_entries, x);
                            if j == i {
                                assert(entries@[i as int].0@ == x);
                            } else {
                                assert(entries@[j].0@ == x);
                            }
                        }
                        if has_key(entries@, x) {
                            let j = key_index(entries@, x);
                            if j != i {
                                assert(old_entries[j].0@ == x);
                            }
                        }
                    }
                    assert forall|x: Seq<char>|
                        #[trigger] entries_map(entries@).contains_key(x) implies entries_map(
                            entries@,
                        )[x] == entries_map(old_entries).insert(k, v)[x] by {
                        let j = key_index(entries@, x);
                        if x == k {
                            assert(entries@[i as int].0@ == k);
                        } else {
                            assert(j != i);
                            assert(old_entries[j].0@ == x);
                            let j2 = key_index(old_entries, x);
                            assert(old_entries[j2].0@ == x);
                        }
                    }
                }
            },
            None => {
                entries.push((key, value));
                assert(keys_distinct(entries@)) by {
                    assert forall|a: int, b: int|
                        0 <= a < entries@.len() && 0 <= b < entries@.len() && a != b implies
                        #[trigger] entries@[a].0@ != #[trigger] entries@[b].0@ by {
                        let n = old_entries.len() as int;
                        if a < n && b < n {
                            assert(old_entries[a].0@ != old_entries[b].0@);
                        } else if a == n {
                            assert(old_entries[b].0@ == entries@[b].0@);
                        } else {
                            assert(old_entries[a].0@ == entries@[a].0@);
                        }
                    }
                }
                assert(entries_map(entries@) =~= entries_map(old_entries).insert(k, v)) by {
                    let n = old_entries.len() as int;
                    assert forall|x: Seq<char>| #[trigger]
                        entries_map(entries@).contains_key(x) == entries_map(
                            old_entries,
                        ).insert(k, v).contains_key(x) by {
                        if has_key(old_entries, x) {
                            let j = key_index(old_entries, x);
                            assert(entries@[j].0@ == x);
                        }
                        if x == k {
                            assert(entries@[n].0@ == k);
                        }
                        if has_key(entries@, x) {
                            let j = key_index(entries@, x);
                            if j < n {
                                assert(old_entries[j].0@ == x);
                            }
                        }
                    }
                    assert forall|x: Seq<char>|
                        #[trigger] entries_map(entries@).contains_key(x) implies entries_map(
                            entries@,
                        )[x] == entries_map(old_entries).insert(k, v)[x] by {
                        let j = key_index(entries@, x);
                        if x == k {
                            assert(entries@[n].0@ == k);
                        } else {
                            assert(j < n);
                            assert(old_entries[j].0@ == x);
                            let j2 = key_index(old_entries, x);
                            assert(old_entries[j2].0@ == x);
                        }
                    }
                }
            },
        }
        self.entries = entries;
    }

    /// The entries, one per key, in storage order.
    pub fn pairs(&self) -> (r: &Vec<(String, String)>)
        ensures
            r@.len() == self@.dom().len(),
            forall|i: int|
                0 <= i < r@.len() ==> self@.contains_key(#[trigger] r@[i].0@) && self@[r@[i].0@]
                    == r@[i].1@,
            keys_distinct(r@),
    {
        proof {
            use_type_invariant(self);
            self.lemma_dom_len();
            assert forall|i: int| 0 <= i < self.entries@.len() implies self@.contains_key(
                #[trigger] self.entries@[i].0@,
            ) && self@[self.entries@[i].0@] == self.entries@[i].1@ by {
                let k = self.entries@[i].0@;
                let j = key_index(self.entries@, k);
                assert(self.entries@[j].0@ == k);
            }
        }
        &self.entries
    }
}

/// What a map gives back under a key is what was last stored under it, and
/// storing under one key leaves every other key as it was.
pub proof fn lemma_insert_then_get(
    m: Map<Seq<char>, Seq<char>>,
    k: Seq<char>,
    v: Seq<char>,
    other: Seq<char>,
)
    ensures
        m.insert(k, v).contains_key(k),
        m.insert(k, v)[k] == v,
        other != k ==> m.insert(k, v).contains_key(other) == m.contains_key(other),
        other != k && m.contains_key(other) ==> m.insert(k, v)[other] == m[other],
{
}

} // verus!
