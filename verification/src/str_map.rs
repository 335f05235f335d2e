//! A small map keyed by strings, kept as a list of entries with distinct keys.

use vstd::prelude::*;

verus! {

/// The map that a list of entries describes; later entries win over earlier ones.
pub open spec fn entries_map<V>(s: Seq<(String, V)>) -> Map<Seq<char>, V>
    decreases s.len(),
{
    if s.len() == 0 {
        Map::empty()
    } else {
        entries_map(s.drop_last()).insert(s.last().0@, s.last().1)
    }
}

/// No key occurs twice in the list of entries.
pub open spec fn distinct_keys<V>(s: Seq<(String, V)>) -> bool {
    forall|i: int, j: int| 0 <= i < j < s.len() ==> s[i].0@ != s[j].0@
}

/// The keys of `entries_map(s)` are exactly the keys listed in `s`, and with distinct
/// keys each listed key maps to the value listed beside it.
pub proof fn lemma_entries_map<V>(s: Seq<(String, V)>)
    ensures
        forall|k: Seq<char>| #[trigger]
            entries_map(s).contains_key(k) <==> exists|i: int| 0 <= i < s.len() && s[i].0@ == k,
        distinct_keys(s) ==> forall|i: int|
            0 <= i < s.len() ==> #[trigger] entries_map(s)[s[i].0@] == s[i].1,
    decreases s.len(),
{
    if s.len() > 0 {
        let t = s.drop_last();
        lemma_entries_map(t);
        assert forall|k: Seq<char>| #[trigger]
            entries_map(s).contains_key(k) <==> exists|i: int| 0 <= i < s.len() && s[i].0@ == k by {
            if entries_map(s).contains_key(k) {
                if k == s.last().0@ {
                    assert(s[s.len() - 1].0@ == k);
                } else {
                    assert(entries_map(t).contains_key(k));
                    let i = choose|i: int| 0 <= i < t.len() && t[i].0@ == k;
                    assert(t[i] == s[i]);
                    assert(s[i].0@ == k);
                }
            }
            if exists|i: int| 0 <= i < s.len() && s[i].0@ == k {
                let i = choose|i: int| 0 <= i < s.len() && s[i].0@ == k;
                if i < s.len() - 1 {
                    assert(t[i] == s[i]);
                    assert(t[i].0@ == k);
                    assert(entries_map(t).contains_key(k));
                }
            }
        }
        if distinct_keys(s) {
            assert(distinct_keys(t));
            assert forall|i: int| 0 <= i < s.len() implies #[trigger] entries_map(s)[s[i].0@]
                == s[i].1 by {
                if i < s.len() - 1 {
                    assert(t[i] == s[i]);
                    assert(s[i].0@ != s[s.len() - 1].0@);
                    assert(entries_map(t)[t[i].0@] == t[i].1);
                }
            }
        }
    }
}

/// A map from strings to values of type `V`.
pub struct StrMap<V> {
    entries: Vec<(String, V)>,
}

impl<V> View for StrMap<V> {
    type V = Map<Seq<char>, V>;

    closed spec fn view(&self) -> Map<Seq<char>, V> {
        entries_map(self.entries@)
    }
}

impl<V> StrMap<V> {
    #[verifier::type_invariant]
    closed spec fn keys_are_distinct(&self) -> bool {
        distinct_keys(self.entries@)
    }

    /// The empty map.
    pub fn new() -> (m: Self)
        ensures
            m@ == Map::<Seq<char>, V>::empty(),
    {
        StrMap { entries: Vec::new() }
    }

    /// Index of the entry with key `k`, if any.
    fn find(&self, k: &String) -> (r: Option<usize>)
        ensures
            match r {
                Some(i) => i < self.entries@.len() && self.entries@[i as int].0@ == k@,
                None => forall|i: int|
                    0 <= i < self.entries@.len() ==> self.entries@[i].0@ != k@,
            },
    {
        let mut i: usize = 0;
        while i < self.entries.len()
            invariant
                i <= self.entries@.len(),
                forall|j: int| 0 <= j < i ==> self.entries@[j].0@ != k@,
            decreases self.entries@.len() - i,
        {
            if self.entries[i].0 == *k {
                return Some(i);
            }
            i = i + 1;
        }
        None
    }

    /// The value stored under `k`, if any (`HashMap::get`).
    pub fn get(&self, k: &str) -> (r: Option<&V>)
        ensures
            match r {
                Some(v) => self@.contains_key(k@) && *v == self@[k@],
                None => !self@.contains_key(k@),
            },
    {
        proof {
            use_type_invariant(self);
            lemma_entries_map(self.entries@);
        }
        let key = String::from_str(k);
        match self.find(&key) {
            Some(i) => Some(&self.entries[i].1),
            None => None,
        }
    }

    /// Whether `k` has a value (`HashMap::contains_key`).
    pub fn contains_key(&self, k: &str) -> (b: bool)
        ensures
            b == self@.contains_key(k@),
    {
        match self.get(k) {
            Some(_) => true,
            None => false,
        }
    }

    /// Stores `v` under `k`, replacing an earlier value under the same key (`HashMap::insert`).
    pub fn insert(&mut self, k: String, v: V)
        ensures
            final(self)@ == old(self)@.insert(k@, v),
    {
        proof {
            use_type_invariant(&*self);
            lemma_entries_map(self.entries@);
        }
        let ghost old_entries = self.entries@;
        match self.find(&k) {
            Some(i) => {
                let ghost kk = k@;
                let mut entries = Vec::new();
                std::mem::swap(&mut entries, &mut self.entries);
                entries.set(i, (k, v));
                let ghost new_entries = entries@;
                proof {
                    assert(distinct_keys(new_entries)) by {
                        assert forall|a: int, b: int|
                            0 <= a < b < new_entries.len() implies new_entries[a].0@
                            != new_entries[b].0@ by {
                            if a != i && b != i {
                                assert(new_entries[a] == old_entries[a]);
                                assert(new_entries[b] == old_entries[b]);
                            } else if a == i {
                                assert(new_entries[b] == old_entries[b]);
                            } else {
                                assert(new_entries[a] == old_entries[a]);
                            }
                        }
                    }
                    lemma_entries_map(new_entries);
                    assert(entries_map(new_entries) =~= entries_map(old_entries).insert(kk, v)) by {
                        assert forall|key: Seq<char>|
                            #[trigger] entries_map(new_entries).contains_key(key)
                            <==> entries_map(old_entries).insert(kk, v).contains_key(key) by {
                            assert(new_entries[i as int].0@ == kk);
                            if entries_map(old_entries).contains_key(key) {
                                let j = choose|j: int|
                                    0 <= j < old_entries.len() && old_entries[j].0@ == key;
                                if j != i {
                                    assert(new_entries[j] == old_entries[j]);
                                }
                                assert(new_entries[j].0@ == key);
                            }
                            if entries_map(new_entries).contains_key(key) {
                                let j = choose|j: int|
                                    0 <= j < new_entries.len() && new_entries[j].0@ == key;
                                if j != i {
                                    assert(new_entries[j] == old_entries[j]);
                                    assert(old_entries[j].0@ == key);
                                }
                            }
                            if key == kk {
                                assert(new_entries[i as int].0@ == key);
                            }
                        }
                        assert forall|key: Seq<char>|
                            #[trigger] entries_map(new_entries).contains_key(key) implies
                            entries_map(new_entries)[key] == entries_map(old_entries).insert(
                                kk,
                                v,
                            )[key] by {
                            let j = choose|j: int|
                                0 <= j < new_entries.len() && new_entries[j].0@ == key;
                            if j != i {
                                assert(new_entries[j] == old_entries[j]);
                            }
                        }
                    }
                }
                self.entries = entries;
            },
            None => {
                let mut entries = Vec::new();
                std::mem::swap(&mut entries, &mut self.entries);
                entries.push((k, v));
                proof {
                    assert(entries@.drop_last() =~= old_entries);
                    lemma_entries_map(old_entries);
                }
                self.entries = entries;
            },
        }
    }

    /// The stored values, one per key.
    pub fn values(&self) -> (r: Vec<V>)
        where
            V: Copy,
        ensures
            r@.len() == self@.dom().len(),
            forall|v: V|
                #![trigger r@.contains(v)]
                r@.contains(v) <==> exists|k: Seq<char>| #[trigger]
                    self@.contains_key(k) && self@[k] == v,
    {
        proof {
            use_type_invariant(self);
            lemma_entries_map(self.entries@);
            lemma_entries_map_len(self.entries@);
        }
        let mut r: Vec<V> = Vec::new();
        let mut i: usize = 0;
        while i < self.entries.len()
            invariant
                distinct_keys(self.entries@),
                i <= self.entries@.len(),
                r@.len() == i,
                forall|j: int| 0 <= j < i ==> r@[j] == self.entries@[j].1,
            decreases self.entries@.len() - i,
        {
            r.push(self.entries[i].1);
            i = i + 1;
        }
        proof {
            assert forall|v: V| r@.contains(v) <==> exists|k: Seq<char>| #[trigger]
                self@.contains_key(k) && self@[k] == v by {
                if r@.contains(v) {
                    let j = choose|j: int| 0 <= j < r@.len() && r@[j] == v;
                    let k = self.entries@[j].0@;
                    assert(entries_map(self.entries@)[self.entries@[j].0@] == self.entries@[j].1);
                    assert(self@.contains_key(k) && self@[k] == v);
                }
                if exists|k: Seq<char>| #[trigger] self@.contains_key(k) && self@[k] == v {
                    let k = choose|k: Seq<char>| #[trigger] self@.contains_key(k) && self@[k] == v;
                    let j = choose|j: int| 0 <= j < self.entries@.len() && self.entries@[j].0@ == k;
                    assert(entries_map(self.entries@)[self.entries@[j].0@] == self.entries@[j].1);
                    assert(r@[j] == v);
                }
            }
        }
        r
    }

    /// The keys, each once, in the order they were first inserted.
    pub fn keys(&self) -> (r: Vec<String>)
        ensures
            r@.len() == self@.dom().len(),
            forall|i: int, j: int| 0 <= i < j < r@.len() ==> r@[i]@ != r@[j]@,
            forall|k: Seq<char>| #[trigger]
                self@.contains_key(k) <==> exists|i: int| 0 <= i < r@.len() && r@[i]@ == k,
    {
        proof {
            use_type_invariant(self);
            lemma_entries_map(self.entries@);
            lemma_entries_map_len(self.entries@);
        }
        let mut r: Vec<String> = Vec::new();
        let mut i: usize = 0;
        while i < self.entries.len()
            invariant
                distinct_keys(self.entries@),
                i <= self.entries@.len(),
                r@.len() == i,
                forall|j: int| 0 <= j < i ==> r@[j]@ == self.entries@[j].0@,
            decreases self.entries@.len() - i,
        {
            r.push(self.entries[i].0.clone());
            i = i + 1;
        }
        proof {
            assert forall|k: Seq<char>| #[trigger]
                self@.contains_key(k) <==> exists|i: int| 0 <= i < r@.len() && r@[i]@ == k by {
                if self@.contains_key(k) {
                    let j = choose|j: int| 0 <= j < self.entries@.len() && self.entries@[j].0@ == k;
                    assert(r@[j]@ == k);
                }
            }
        }
        r
    }

    /// Number of keys with a value.
    pub fn len(&self) -> (n: usize)
        ensures
            n == self@.dom().len(),
    {
        proof {
            use_type_invariant(self);
            lemma_entries_map_len(self.entries@);
        }
        self.entries.len()
    }
}

/// With distinct keys, the map has exactly as many keys as there are entries.
proof fn lemma_entries_map_len<V>(s: Seq<(String, V)>)
    requires
        distinct_keys(s),
    ensures
        entries_map(s).dom().finite(),
        entries_map(s).dom().len() == s.len(),
    decreases s.len(),
{
    if s.len() > 0 {
        let t = s.drop_last();
        assert(distinct_keys(t));
        lemma_entries_map_len(t);
        lemma_entries_map(t);
        assert(!entries_map(t).contains_key(s.last().0@)) by {
            if entries_map(t).contains_key(s.last().0@) {
                let i = choose|i: int| 0 <= i < t.len() && t[i].0@ == s.last().0@;
                assert(s[i].0@ == s[s.len() - 1].0@);
            }
        }
    }
}

} // verus!
