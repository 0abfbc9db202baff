//! A small map from string keys to values, kept as a vector of entries
//! with pairwise distinct keys.

use vstd::prelude::*;

verus! {

/// Key of the entry at position `i`.
spec fn key_of<V>(s: Seq<(String, V)>, i: int) -> Seq<char> {
    s[i].0@
}

/// No key occurs at two positions.
spec fn distinct<V>(s: Seq<(String, V)>) -> bool {
    forall|i: int, j: int|
        0 <= i < s.len() && 0 <= j < s.len() && #[trigger] key_of(s, i) == #[trigger] key_of(s, j)
            ==> i == j
}

spec fn holds<V>(s: Seq<(String, V)>, k: Seq<char>) -> bool {
    exists|i: int| 0 <= i < s.len() && #[trigger] key_of(s, i) == k
}

spec fn position<V>(s: Seq<(String, V)>, k: Seq<char>) -> int {
    choose|i: int| 0 <= i < s.len() && #[trigger] key_of(s, i) == k
}

/// The map that a sequence of entries stands for.
spec fn entries_map<V>(s: Seq<(String, V)>) -> Map<Seq<char>, V> {
    Map::new(|k: Seq<char>| holds(s, k), |k: Seq<char>| s[position(s, k)].1)
}

proof fn lemma_entries<V>(s: Seq<(String, V)>)
    requires
        distinct(s),
    ensures
        forall|i: int|
            0 <= i < s.len() ==> #[trigger] entries_map(s).contains_key(key_of(s, i))
                && entries_map(s)[key_of(s, i)] == s[i].1,
        forall|k: Seq<char>| #[trigger]
            entries_map(s).contains_key(k) ==> exists|i: int|
                0 <= i < s.len() && #[trigger] key_of(s, i) == k,
{
    assert forall|i: int| 0 <= i < s.len() implies #[trigger] entries_map(s).contains_key(
        key_of(s, i),
    ) && entries_map(s)[key_of(s, i)] == s[i].1 by {
        assert(holds(s, key_of(s, i)));
    }
}

proof fn lemma_push<V>(s: Seq<(String, V)>, k: String, v: V)
    requires
        distinct(s),
        !entries_map(s).contains_key(k@),
    ensures
        distinct(s.push((k, v))),
        entries_map(s.push((k, v))) == entries_map(s).insert(k@, v),
{
    let t = s.push((k, v));
    lemma_entries(s);
    assert forall|i: int| 0 <= i < s.len() implies key_of(t, i) == key_of(s, i) by {}
    assert(key_of(t, s.len() as int) == k@);
    assert forall|i: int, j: int|
        0 <= i < t.len() && 0 <= j < t.len() && #[trigger] key_of(t, i) == #[trigger] key_of(t, j)
            implies i == j by {
        if i < s.len() && j < s.len() {
            assert(key_of(s, i) == key_of(s, j));
        } else if i < s.len() {
            assert(entries_map(s).contains_key(key_of(s, i)));
        } else if j < s.len() {
            assert(entries_map(s).contains_key(key_of(s, j)));
        }
    }
    lemma_entries(t);
    let m = entries_map(s).insert(k@, v);
    assert forall|q: Seq<char>| #[trigger] entries_map(t).contains_key(q) <==> m.contains_key(q) by {
        if entries_map(t).contains_key(q) {
            let i = choose|i: int| 0 <= i < t.len() && #[trigger] key_of(t, i) == q;
            if i < s.len() {
                assert(entries_map(s).contains_key(key_of(s, i)));
            }
        }
        if m.contains_key(q) && q != k@ {
            let i = choose|i: int| 0 <= i < s.len() && #[trigger] key_of(s, i) == q;
            assert(entries_map(t).contains_key(key_of(t, i)));
        }
        if q == k@ {
            assert(entries_map(t).contains_key(key_of(t, s.len() as int)));
        }
    }
    assert forall|q: Seq<char>| #[trigger] entries_map(t).contains_key(q) implies entries_map(t)[q]
        == m[q] by {
        let i = choose|i: int| 0 <= i < t.len() && #[trigger] key_of(t, i) == q;
        if i < s.len() {
            assert(entries_map(s).contains_key(key_of(s, i)));
        }
    }
    assert(entries_map(t) =~= m);
}

proof fn lemma_update<V>(s: Seq<(String, V)>, i: int, k: String, v: V)
    requires
        distinct(s),
        0 <= i < s.len(),
        key_of(s, i) == k@,
    ensures
        distinct(s.update(i, (k, v))),
        entries_map(s.update(i, (k, v))) == entries_map(s).insert(k@, v),
{
    let t = s.update(i, (k, v));
    lemma_entries(s);
    assert forall|j: int| 0 <= j < s.len() implies key_of(t, j) == key_of(s, j) by {}
    assert forall|a: int, b: int|
        0 <= a < t.len() && 0 <= b < t.len() && #[trigger] key_of(t, a) == #[trigger] key_of(t, b)
            implies a == b by {
        assert(key_of(s, a) == key_of(s, b));
    }
    lemma_entries(t);
    let m = entries_map(s).insert(k@, v);
    assert forall|q: Seq<char>| #[trigger] entries_map(t).contains_key(q) <==> m.contains_key(q) by {
        if entries_map(t).contains_key(q) {
            let j = choose|j: int| 0 <= j < t.len() && #[trigger] key_of(t, j) == q;
            assert(entries_map(s).contains_key(key_of(s, j)));
        }
        if m.contains_key(q) {
            if q == k@ {
                assert(entries_map(t).contains_key(key_of(t, i)));
            } else {
                let j = choose|j: int| 0 <= j < s.len() && #[trigger] key_of(s, j) == q;
                assert(entries_map(t).contains_key(key_of(t, j)));
            }
        }
    }
    assert forall|q: Seq<char>| #[trigger] entries_map(t).contains_key(q) implies entries_map(t)[q]
        == m[q] by {
        let j = choose|j: int| 0 <= j < t.len() && #[trigger] key_of(t, j) == q;
        assert(entries_map(s).contains_key(key_of(s, j)));
    }
    assert(entries_map(t) =~= m);
}

proof fn lemma_remove<V>(s: Seq<(String, V)>, i: int)
    requires
        distinct(s),
        0 <= i < s.len(),
    ensures
        distinct(s.remove(i)),
        entries_map(s.remove(i)) == entries_map(s).remove(key_of(s, i)),
{
    let t = s.remove(i);
    let k = key_of(s, i);
    lemma_entries(s);
    assert forall|j: int| 0 <= j < t.len() implies key_of(t, j) == key_of(
        s,
        if j < i {
            j
        } else {
            j + 1
        },
    ) by {}
    assert forall|a: int, b: int|
        0 <= a < t.len() && 0 <= b < t.len() && #[trigger] key_of(t, a) == #[trigger] key_of(t, b)
            implies a == b by {
        let a1 = if a < i {
            a
        } else {
            a + 1
        };
        let b1 = if b < i {
            b
        } else {
            b + 1
        };
        assert(key_of(s, a1) == key_of(s, b1));
    }
    lemma_entries(t);
    let m = entries_map(s).remove(k);
    assert forall|q: Seq<char>| #[trigger] entries_map(t).contains_key(q) <==> m.contains_key(q) by {
        if entries_map(t).contains_key(q) {
            let j = choose|j: int| 0 <= j < t.len() && #[trigger] key_of(t, j) == q;
            let j1 = if j < i {
                j
            } else {
                j + 1
            };
            assert(key_of(s, j1) == q);
            assert(entries_map(s).contains_key(key_of(s, j1)));
        }
        if m.contains_key(q) {
            let j = choose|j: int| 0 <= j < s.len() && #[trigger] key_of(s, j) == q;
            assert(j != i);
            let j1 = if j < i {
                j
            } else {
                j - 1
            };
            assert(key_of(t, j1) == q);
            assert(entries_map(t).contains_key(key_of(t, j1)));
        }
    }
    assert forall|q: Seq<char>| #[trigger] entries_map(t).contains_key(q) implies entries_map(t)[q]
        == m[q] by {
        let j = choose|j: int| 0 <= j < t.len() && #[trigger] key_of(t, j) == q;
        let j1 = if j < i {
            j
        } else {
            j + 1
        };
        assert(key_of(s, j1) == q);
        assert(entries_map(s).contains_key(key_of(s, j1)));
    }
    assert(entries_map(t) =~= m);
}

proof fn lemma_dom_len<V>(s: Seq<(String, V)>)
    requires
        distinct(s),
    ensures
        entries_map(s).dom().finite(),
        entries_map(s).dom().len() == s.len(),
{
    let keys = Seq::new(s.len(), |i: int| key_of(s, i));
    assert forall|i: int, j: int|
        0 <= i < keys.len() && 0 <= j < keys.len() && i != j implies keys[i] != keys[j] by {
        assert(key_of(s, i) == keys[i]);
        assert(key_of(s, j) == keys[j]);
    }
    assert(keys.no_duplicates());
    keys.unique_seq_to_set();
    lemma_entries(s);
    assert forall|k: Seq<char>| #[trigger]
        entries_map(s).dom().contains(k) <==> keys.to_set().contains(k) by {
        if entries_map(s).dom().contains(k) {
            let i = choose|i: int| 0 <= i < s.len() && #[trigger] key_of(s, i) == k;
            assert(keys[i] == k);
        }
        if keys.to_set().contains(k) {
            let i = choose|i: int| 0 <= i < keys.len() && keys[i] == k;
            assert(key_of(s, i) == k);
            assert(entries_map(s).contains_key(key_of(s, i)));
        }
    }
    assert(entries_map(s).dom() =~= keys.to_set());
}

/// Entries keyed by strings; at most one entry per key.
pub struct Table<V> {
    entries: Vec<(String, V)>,
}

impl<V> Table<V> {
    /// No key occurs twice; holds of every table.
    #[verifier::type_invariant]
    pub closed spec fn keys_distinct(&self) -> bool {
        distinct(self.entries@)
    }

    /// The map from keys to values.
    pub closed spec fn view(&self) -> Map<Seq<char>, V> {
        entries_map(self.entries@)
    }

    /// Every table has finitely many keys.
    pub proof fn lemma_finite(&self)
        requires
            self.keys_distinct(),
        ensures
            self@.dom().finite(),
    {
        lemma_dom_len(self.entries@);
    }

    pub fn new() -> (r: Self)
        ensures
            r@ == Map::<Seq<char>, V>::empty(),
    {
        let r = Table { entries: Vec::new() };
        assert(r@ =~= Map::<Seq<char>, V>::empty());
        r
    }

    /// Number of entries.
    pub fn len(&self) -> (r: usize)
        ensures
            self@.dom().finite(),
            r == self@.dom().len(),
    {
        proof {
            use_type_invariant(self);
            lemma_dom_len(self.entries@);
        }
        self.entries.len()
    }

    /// Position of the entry with key `key`, if any.
    fn find(&self, key: &str) -> (r: Option<usize>)
        ensures
            r is None <==> !self@.contains_key(key@),
            r matches Some(i) ==> i < self.entries@.len() && key_of(self.entries@, i as int) == key@,
    {
        proof {
            use_type_invariant(self);
            lemma_entries(self.entries@);
        }
        let wanted = key.to_owned();
        let mut i: usize = 0;
        while i < self.entries.len()
            invariant
                i <= self.entries@.len(),
                wanted@ == key@,
                forall|j: int| 0 <= j < i ==> key_of(self.entries@, j) != key@,
            decreases self.entries@.len() - i,
        {
            if self.entries[i].0 == wanted {
                proof {
                    use_type_invariant(self);
                    lemma_entries(self.entries@);
                    assert(self@.contains_key(key_of(self.entries@, i as int)));
                }
                return Some(i);
            }
            i = i + 1;
        }
        None
    }

    /// Whether some entry has key `key`.
    pub fn contains(&self, key: &str) -> (r: bool)
        ensures
            r == self@.contains_key(key@),
    {
        self.find(key).is_some()
    }

    /// The value under `key`, if any.
    pub fn get(&self, key: &str) -> (r: Option<&V>)
        ensures
            r matches Some(v) ==> self@.contains_key(key@) && *v == self@[key@],
            r is None ==> !self@.contains_key(key@),
    {
        match self.find(key) {
            Some(i) => {
                proof {
                    use_type_invariant(self);
                    lemma_entries(self.entries@);
                }
                Some(&self.entries[i].1)
            },
            None => None,
        }
    }

    /// Sets the value under `key`, adding the key if it is new.
    pub fn insert(&mut self, key: String, value: V)
        ensures
            final(self)@ == old(self)@.insert(key@, value),
    {
        proof {
            use_type_invariant(&*self);
        }
        let found = self.find(key.as_str());
        let mut es: Vec<(String, V)> = Vec::new();
        std::mem::swap(&mut self.entries, &mut es);
        match found {
            Some(i) => {
                proof {
                    lemma_update(es@, i as int, key, value);
                }
                es.set(i, (key, value));
            },
            None => {
                proof {
                    lemma_push(es@, key, value);
                }
                es.push((key, value));
            },
        }
        self.entries = es;
    }

    /// Takes out the entry under `key`, returning its value.
    pub fn remove(&mut self, key: &str) -> (r: Option<V>)
        ensures
            final(self)@ == old(self)@.remove(key@),
            r == old(self)@.get(key@),
    {
        proof {
            use_type_invariant(&*self);
            lemma_entries(self.entries@);
        }
        match self.find(key) {
            Some(i) => {
                let mut es: Vec<(String, V)> = Vec::new();
                std::mem::swap(&mut self.entries, &mut es);
                proof {
                    lemma_remove(es@, i as int);
                }
                let (_, v) = es.remove(i);
                self.entries = es;
                Some(v)
            },
            None => {
                assert(old(self)@.remove(key@) =~= old(self)@);
                None
            },
        }
    }

    /// Takes out some entry, or returns `None` when the table is empty.
    pub fn pop_entry(&mut self) -> (r: Option<(String, V)>)
        ensures
            r matches Some(e) ==> old(self)@.contains_key(e.0@) && e.1 == old(self)@[e.0@]
                && final(self)@ == old(self)@.remove(e.0@),
            r is None ==> old(self)@.dom().len() == 0 && final(self)@ == old(self)@,
            old(self)@.dom().finite(),
    {
        proof {
            use_type_invariant(&*self);
            lemma_entries(self.entries@);
            lemma_dom_len(self.entries@);
        }
        if self.entries.len() == 0 {
            return None;
        }
        let mut es: Vec<(String, V)> = Vec::new();
        std::mem::swap(&mut self.entries, &mut es);
        let last = es.len() - 1;
        proof {
            lemma_remove(es@, last as int);
        }
        let e = es.remove(last);
        self.entries = es;
        Some(e)
    }

    /// The keys, each once.
    pub fn keys(&self) -> (r: Vec<String>)
        ensures
            r@.len() == self@.dom().len(),
            forall|k: Seq<char>|
                self@.contains_key(k) <==> exists|i: int| 0 <= i < r@.len() && #[trigger] r@[i]@ == k,
    {
        proof {
            use_type_invariant(self);
            lemma_entries(self.entries@);
            lemma_dom_len(self.entries@);
        }
        let mut r: Vec<String> = Vec::new();
        let mut i: usize = 0;
        while i < self.entries.len()
            invariant
                i <= self.entries@.len(),
                r@.len() == i,
                forall|j: int| 0 <= j < i ==> #[trigger] r@[j]@ == key_of(self.entries@, j),
            decreases self.entries@.len() - i,
        {
            r.push(self.entries[i].0.clone());
            i = i + 1;
        }
        assert forall|k: Seq<char>|
            self@.contains_key(k) <==> exists|i: int| 0 <= i < r@.len() && #[trigger] r@[i]@ == k by {
            if self@.contains_key(k) {
                let i = choose|i: int| 0 <= i < self.entries@.len() && #[trigger] key_of(self.entries@, i) == k;
                assert(r@[i]@ == k);
            }
            if exists|i: int| 0 <= i < r@.len() && #[trigger] r@[i]@ == k {
                let i = choose|i: int| 0 <= i < r@.len() && #[trigger] r@[i]@ == k;
                assert(self@.contains_key(key_of(self.entries@, i)));
            }
        }
        r
    }
}

} // verus!
