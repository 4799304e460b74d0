//! A map from strings to strings, kept as a list of entries with distinct
//! keys. It stands where a hash map keyed by strings would: its view is a
//! mathematical map, and every operation says what it does to that map.

use vstd::prelude::*;

verus! {

/// A finite map from strings to strings.
#[derive(Debug)]
pub struct StringMap {
    entries: Vec<(String, String)>,
}

/// Whether some entry of `e` has the key `k`.
pub open spec fn has_key(e: Seq<(String, String)>, k: Seq<char>) -> bool {
    exists|i: int| 0 <= i < e.len() && (#[trigger] e[i]).0@ == k
}

/// The index of an entry of `e` whose key is `k`.
pub open spec fn index_of(e: Seq<(String, String)>, k: Seq<char>) -> int {
    choose|i: int| 0 <= i < e.len() && (#[trigger] e[i]).0@ == k
}

/// No two entries of `e` share a key.
pub open spec fn distinct_keys(e: Seq<(String, String)>) -> bool {
    forall|i: int, j: int|
        0 <= i < e.len() && 0 <= j < e.len() && (#[trigger] e[i]).0@ == (#[trigger] e[j]).0@ ==> i
            == j
}

/// The map that the entries `e` stand for.
pub open spec fn map_of(e: Seq<(String, String)>) -> Map<Seq<char>, Seq<char>> {
    Map::new(|k: Seq<char>| has_key(e, k), |k: Seq<char>| e[index_of(e, k)].1@)
}

/// With distinct keys, the entry at `i` is what the map holds for its key.
pub proof fn lemma_map_of_entry(e: Seq<(String, String)>, i: int)
    requires
        distinct_keys(e),
        0 <= i < e.len(),
    ensures
        map_of(e).contains_key(e[i].0@),
        map_of(e)[e[i].0@] == e[i].1@,
{
    let k = e[i].0@;
    assert(has_key(e, k));
    assert(index_of(e, k) == i);
}

impl StringMap {
    #[verifier::type_invariant]
    spec fn well_formed(&self) -> bool {
        distinct_keys(self.entries@)
    }

    /// The mathematical map that `self` holds.
    pub closed spec fn view(&self) -> Map<Seq<char>, Seq<char>> {
        map_of(self.entries@)
    }

    /// The empty map.
    pub fn new() -> (m: StringMap)
        ensures
            m@ == Map::<Seq<char>, Seq<char>>::empty(),
    {
        let m = StringMap { entries: Vec::new() };
        assert(m@ =~= Map::<Seq<char>, Seq<char>>::empty());
        m
    }

    /// The index of the entry with key `key`, if there is one.
    fn position(&self, key: &str) -> (r: Option<usize>)
        ensures
            r matches Some(i) ==> i < self.entries.len() && self.entries[i as int].0@ == key@,
            r is None ==> !has_key(self.entries@, key@),
    {
        let mut i: usize = 0;
        while i < self.entries.len()
            invariant
                i <= self.entries.len(),
                forall|j: int| 0 <= j < i ==> (#[trigger] self.entries[j]).0@ != key@,
            decreases self.entries.len() - i,
        {
            if self.entries[i].0.as_str().eq(key) {
                return Some(i);
            }
            i = i + 1;
        }
        None
    }

    /// Whether the map holds `key`.
    pub fn contains_key(&self, key: &str) -> (b: bool)
        ensures
            b == self@.contains_key(key@),
    {
        match self.position(key) {
            Some(i) => {
                assert(has_key(self.entries@, key@));
                true
            },
            None => false,
        }
    }

    /// The value that the map holds for `key`, if any.
    pub fn get(&self, key: &str) -> (r: Option<&String>)
        ensures
            r is Some <==> self@.contains_key(key@),
            r matches Some(v) ==> v@ == self@[key@],
    {
        proof {
            use_type_invariant(self);
        }
        match self.position(key) {
            Some(i) => {
                proof {
                    lemma_map_of_entry(self.entries@, i as int);
                }
                Some(&self.entries[i].1)
            },
            None => None,
        }
    }

    /// Maps `key` to `value`, in place of what it was mapped to before, and
    /// returns that earlier value.
    pub fn insert(&mut self, key: String, value: String) -> (previous: Option<String>)
        ensures
            final(self)@ == old(self)@.insert(key@, value@),
            previous is Some <==> old(self)@.contains_key(key@),
            previous matches Some(p) ==> p@ == old(self)@[key@],
    {
        proof {
            use_type_invariant(&*self);
        }
        let ghost before = self.entries@;
        match self.position(key.as_str()) {
            Some(i) => {
                proof {
                    lemma_map_of_entry(before, i as int);
                }
                let previous = self.entries[i].1.clone();
                let ghost k = key@;
                let ghost v = value@;
                let mut taken = StringMap { entries: Vec::new() };
                core::mem::swap(self, &mut taken);
                let mut entries = taken.entries;
                entries.set(i, (key, value));
                *self = StringMap { entries };
                proof {
                    let after = self.entries@;
                    assert forall|a: int, b: int|
                        0 <= a < after.len() && 0 <= b < after.len() && (#[trigger] after[a]).0@ == (
                        #[trigger] after[b]).0@ implies a == b by {
                        assert(after[a].0@ == before[a].0@);
                        assert(after[b].0@ == before[b].0@);
                    }
                    assert forall|q: Seq<char>| has_key(after, q) == has_key(before, q) by {
                        if has_key(after, q) {
                            let j = index_of(after, q);
                            assert(before[j].0@ == q);
                        }
                        if has_key(before, q) {
                            let j = index_of(before, q);
                            assert(after[j].0@ == q);
                        }
                    }
                    assert forall|q: Seq<char>| has_key(after, q) implies map_of(after)[q]
                        == map_of(before).insert(k, v)[q] by {
                        let j = index_of(after, q);
                        lemma_map_of_entry(after, j);
                        if j != i as int {
                            assert(before[j] == after[j]);
                            lemma_map_of_entry(before, j);
                        }
                    }
                    assert(map_of(after) =~= map_of(before).insert(k, v));
                }
                Some(previous)
            },
            None => {
                let ghost k = key@;
                let ghost v = value@;
                let mut taken = StringMap { entries: Vec::new() };
                core::mem::swap(self, &mut taken);
                let mut entries = taken.entries;
                entries.push((key, value));
                *self = StringMap { entries };
                proof {
                    let after = self.entries@;
                    let n = before.len() as int;
                    assert forall|a: int, b: int|
                        0 <= a < after.len() && 0 <= b < after.len() && (#[trigger] after[a]).0@ == (
                        #[trigger] after[b]).0@ implies a == b by {
                        if a < n {
                            assert(after[a] == before[a]);
                        }
                        if b < n {
                            assert(after[b] == before[b]);
                        }
                    }
                    assert(after[n].0@ == k);
                    assert forall|q: Seq<char>| has_key(after, q) == (q == k || has_key(before, q)) by {
                        if has_key(after, q) {
                            let j = index_of(after, q);
                            if j < n {
                                assert(before[j].0@ == q);
                            }
                        }
                        if has_key(before, q) {
                            let j = index_of(before, q);
                            assert(after[j].0@ == q);
                        }
                    }
                    assert forall|q: Seq<char>| has_key(after, q) implies map_of(after)[q]
                        == map_of(before).insert(k, v)[q] by {
                        let j = index_of(after, q);
                        lemma_map_of_entry(after, j);
                        if j < n {
                            assert(before[j] == after[j]);
                            lemma_map_of_entry(before, j);
                        }
                    }
                    assert(map_of(after) =~= map_of(before).insert(k, v));
                }
                None
            },
        }
    }

    /// Takes `key` out of the map, and returns the value it was mapped to.
    pub fn remove(&mut self, key: &str) -> (previous: Option<String>)
        ensures
            final(self)@ == old(self)@.remove(key@),
            previous is Some <==> old(self)@.contains_key(key@),
            previous matches Some(p) ==> p@ == old(self)@[key@],
    {
        proof {
            use_type_invariant(&*self);
        }
        let ghost before = self.entries@;
        match self.position(key) {
            Some(i) => {
                proof {
                    lemma_map_of_entry(before, i as int);
                }
                let mut taken = StringMap { entries: Vec::new() };
                core::mem::swap(self, &mut taken);
                let mut entries = taken.entries;
                let gone = entries.remove(i);
                *self = StringMap { entries };
                proof {
                    let after = self.entries@;
                    assert(after == before.remove(i as int));
                    assert forall|a: int| 0 <= a < after.len() implies #[trigger] after[a] == before[if a
                        < i { a } else { a + 1 }] by {}
                    assert forall|a: int, b: int|
                        0 <= a < after.len() && 0 <= b < after.len() && (#[trigger] after[a]).0@ == (
                        #[trigger] after[b]).0@ implies a == b by {
                        let a2 = if a < i { a } else { a + 1 };
                        let b2 = if b < i { b } else { b + 1 };
                        assert(before[a2].0@ == before[b2].0@);
                    }
                    assert forall|q: Seq<char>| has_key(after, q) == (q != key@ && has_key(
                        before,
                        q,
                    )) by {
                        if has_key(after, q) {
                            let j = index_of(after, q);
                            let j2 = if j < i { j } else { j + 1 };
                            assert(before[j2].0@ == q);
                        }
                        if q != key@ && has_key(before, q) {
                            let j = index_of(before, q);
                            let j2 = if j < i { j } else { j - 1 };
                            assert(after[j2].0@ == q);
                        }
                    }
                    assert forall|q: Seq<char>| has_key(after, q) implies map_of(after)[q]
                        == map_of(before)[q] by {
                        let j = index_of(after, q);
                        let j2 = if j < i { j } else { j + 1 };
                        lemma_map_of_entry(after, j);
                        lemma_map_of_entry(before, j2);
                    }
                    assert(map_of(after) =~= map_of(before).remove(key@));
                }
                Some(gone.1)
            },
            None => {
                assert(self@ =~= old(self)@.remove(key@));
                None
            },
        }
    }

    /// How many keys the map holds.
    pub fn len(&self) -> (n: usize)
        ensures
            self@.dom().finite(),
            n == self@.dom().len(),
    {
        proof {
            use_type_invariant(self);
            lemma_map_of_len(self.entries@, self.entries@.len() as int);
            assert(self.entries@.take(self.entries@.len() as int) == self.entries@);
        }
        self.entries.len()
    }

    /// A map that holds what `self` holds.
    pub fn duplicate(&self) -> (m: StringMap)
        ensures
            m@ == self@,
    {
        proof {
            use_type_invariant(self);
        }
        let mut entries: Vec<(String, String)> = Vec::new();
        let mut i: usize = 0;
        while i < self.entries.len()
            invariant
                i <= self.entries.len(),
                entries@ == self.entries@.take(i as int),
            decreases self.entries.len() - i,
        {
            entries.push((self.entries[i].0.clone(), self.entries[i].1.clone()));
            i = i + 1;
            assert(entries@ =~= self.entries@.take(i as int));
        }
        assert(self.entries@.take(self.entries@.len() as int) == self.entries@);
        StringMap { entries }
    }

    /// The entries of the map, each key once, in no order that is promised.
    pub fn to_vec(&self) -> (entries: Vec<(String, String)>)
        ensures
            distinct_keys(entries@),
            map_of(entries@) == self@,
    {
        proof {
            use_type_invariant(self);
        }
        let copy = self.duplicate();
        proof {
            use_type_invariant(&copy);
        }
        copy.entries
    }

    /// Adds every entry of `other` to the map; where both hold a key, the
    /// value of `other` stays.
    pub fn extend_from(&mut self, other: &StringMap)
        ensures
            final(self)@ == old(self)@.union_prefer_right(other@),
    {
        proof {
            use_type_invariant(other);
        }
        let mut i: usize = 0;
        assert(map_of(other.entries@.take(0)) =~= Map::<Seq<char>, Seq<char>>::empty());
        assert(self@ =~= old(self)@.union_prefer_right(Map::<Seq<char>, Seq<char>>::empty()));
        while i < other.entries.len()
            invariant
                i <= other.entries.len(),
                distinct_keys(other.entries@),
                self@ == old(self)@.union_prefer_right(map_of(other.entries@.take(i as int))),
            decreases other.entries.len() - i,
        {
            self.insert(other.entries[i].0.clone(), other.entries[i].1.clone());
            proof {
                lemma_map_of_take(other.entries@, i as int);
                let k = other.entries[i as int].0@;
                let v = other.entries[i as int].1@;
                let part = map_of(other.entries@.take(i as int));
                let start = old(self)@;
                assert(start.union_prefer_right(part).insert(k, v) =~= start.union_prefer_right(
                    part.insert(k, v),
                ));
            }
            i = i + 1;
        }
        assert(other.entries@.take(other.entries@.len() as int) == other.entries@);
    }
}

impl Clone for StringMap {
    fn clone(&self) -> (m: Self)
        ensures
            m@ == self@,
    {
        self.duplicate()
    }
}

/// With distinct keys, the map of the first `n` entries has `n` keys.
pub proof fn lemma_map_of_len(e: Seq<(String, String)>, n: int)
    requires
        distinct_keys(e),
        0 <= n <= e.len(),
    ensures
        map_of(e.take(n)).dom().finite(),
        map_of(e.take(n)).dom().len() == n,
    decreases n,
{
    if n == 0 {
        assert(map_of(e.take(0)).dom() =~= Set::<Seq<char>>::empty());
    } else {
        lemma_map_of_len(e, n - 1);
        lemma_map_of_take(e, n - 1);
        let before = map_of(e.take(n - 1));
        let k = e[n - 1].0@;
        assert(!before.dom().contains(k)) by {
            if has_key(e.take(n - 1), k) {
                let j = index_of(e.take(n - 1), k);
                assert(e[j].0@ == e[n - 1].0@);
            }
        }
        assert(map_of(e.take(n)).dom() =~= before.dom().insert(k));
    }
}

/// With distinct keys, one more entry of the list is one more insertion
/// into the map.
pub proof fn lemma_map_of_take(e: Seq<(String, String)>, i: int)
    requires
        distinct_keys(e),
        0 <= i < e.len(),
    ensures
        map_of(e.take(i + 1)) == map_of(e.take(i)).insert(e[i].0@, e[i].1@),
{
    let a = e.take(i + 1);
    let b = e.take(i);
    assert(distinct_keys(a));
    assert(distinct_keys(b));
    assert forall|q: Seq<char>| has_key(a, q) == (q == e[i].0@ || has_key(b, q)) by {
        if has_key(a, q) {
            let j = index_of(a, q);
            if j < i {
                assert(b[j].0@ == q);
            }
        }
        if has_key(b, q) {
            let j = index_of(b, q);
            assert(a[j].0@ == q);
        }
        if q == e[i].0@ {
            assert(a[i].0@ == q);
        }
    }
    assert forall|q: Seq<char>| has_key(a, q) implies map_of(a)[q] == map_of(b).insert(
        e[i].0@,
        e[i].1@,
    )[q] by {
        let j = index_of(a, q);
        lemma_map_of_entry(a, j);
        if j < i {
            assert(b[j] == a[j]);
            lemma_map_of_entry(b, j);
        }
    }
    assert(map_of(a) =~= map_of(b).insert(e[i].0@, e[i].1@));
}

} // verus!
