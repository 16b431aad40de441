//! A small map that keeps its entries in the order in which their keys were
//! first inserted. Keys are compared by their views.

use vstd::prelude::*;

verus! {

/// A key whose equality can be decided at run time and means equality of
/// views.
pub trait MapKey: View + Sized {
    fn same(&self, other: &Self) -> (b: bool)
        ensures
            b == (self@ == other@),
    ;

    /// A copy of the key.
    fn duplicate(&self) -> (copy: Self)
        ensures
            copy@ == self@,
    ;
}

impl MapKey for String {
    fn same(&self, other: &Self) -> (b: bool) {
        crate::text::same_text(self.as_str(), other.as_str())
    }

    fn duplicate(&self) -> (copy: Self) {
        self.clone()
    }
}

/// No key stands at two places of the listing.
pub open spec fn distinct_keys<A, B>(l: Seq<(A, B)>) -> bool {
    forall|i: int, j: int| 0 <= i < j < l.len() ==> l[i].0 != l[j].0
}

/// The first place at or after `from` whose key is `k`, or the length of the
/// listing if there is none.
pub open spec fn key_index<A, B>(l: Seq<(A, B)>, k: A, from: int) -> int
    decreases l.len() - from,
{
    if from < 0 || from >= l.len() {
        l.len() as int
    } else if l[from].0 == k {
        from
    } else {
        key_index(l, k, from + 1)
    }
}

/// The listing with `v` under the key `k`: at the key's place if it has one,
/// else at the end.
pub open spec fn listing_insert<A, B>(l: Seq<(A, B)>, k: A, v: B) -> Seq<(A, B)> {
    if key_index(l, k, 0) < l.len() {
        l.update(key_index(l, k, 0), (k, v))
    } else {
        l.push((k, v))
    }
}

/// The map that a listing stands for: each key that occurs, with the value
/// of its first entry.
pub open spec fn map_of<A, B>(l: Seq<(A, B)>) -> Map<A, B> {
    Map::new(|k: A| key_index(l, k, 0) < l.len(), |k: A| l[key_index(l, k, 0)].1)
}

pub proof fn lemma_key_index<A, B>(l: Seq<(A, B)>, k: A, from: int)
    requires
        0 <= from <= l.len(),
    ensures
        from <= key_index(l, k, from) <= l.len(),
        key_index(l, k, from) < l.len() ==> l[key_index(l, k, from)].0 == k,
        forall|i: int| from <= i < key_index(l, k, from) ==> (#[trigger] l[i]).0 != k,
    decreases l.len() - from,
{
    if from < l.len() && l[from].0 != k {
        lemma_key_index(l, k, from + 1);
    }
}

/// A place `at` whose key is `k`, with no `k` between `from` and `at`, is the
/// one that the search from `from` finds.
pub proof fn lemma_key_index_is<A, B>(l: Seq<(A, B)>, k: A, from: int, at: int)
    requires
        0 <= from <= at <= l.len(),
        at < l.len() ==> l[at].0 == k,
        forall|i: int| from <= i < at ==> (#[trigger] l[i]).0 != k,
    ensures
        key_index(l, k, from) == at,
    decreases at - from,
{
    if from < at {
        assert(l[from].0 != k);
        lemma_key_index_is(l, k, from + 1, at);
    }
}

/// Replacing the value of an entry, in a listing of distinct keys, is an
/// insertion into the map.
pub proof fn lemma_map_of_update<A, B>(l: Seq<(A, B)>, i: int, v: B)
    requires
        0 <= i < l.len(),
        distinct_keys(l),
    ensures
        distinct_keys(l.update(i, (l[i].0, v))),
        map_of(l.update(i, (l[i].0, v))) == map_of(l).insert(l[i].0, v),
{
    let k = l[i].0;
    let m = l.update(i, (k, v));
    assert forall|a: int, b: int| 0 <= a < b < m.len() implies m[a].0 != m[b].0 by {
        assert(l[a].0 != l[b].0);
    }
    assert forall|q: A| key_index(m, q, 0) == key_index(l, q, 0) by {
        lemma_key_index(l, q, 0);
        let at = key_index(l, q, 0);
        assert forall|j: int| 0 <= j < at implies (#[trigger] m[j]).0 != q by {
            assert(l[j].0 != q);
        }
        lemma_key_index_is(m, q, 0, at);
    }
    assert(key_index(l, k, 0) == i) by {
        lemma_key_index(l, k, 0);
        let at = key_index(l, k, 0);
        if at < i {
            assert(l[at].0 != l[i].0);
        }
        if at > i {
            assert(l[i].0 != k);
        }
    }
    assert(m.len() == l.len());
    let want = map_of(l).insert(k, v);
    assert forall|q: A| map_of(m).contains_key(q) == want.contains_key(q) by {
        assert(key_index(m, q, 0) == key_index(l, q, 0));
    }
    assert forall|q: A| map_of(m).contains_key(q) implies map_of(m)[q] == want[q] by {
        assert(key_index(m, q, 0) == key_index(l, q, 0));
        lemma_key_index(l, q, 0);
        if q != k {
            assert(key_index(l, q, 0) != i);
        }
    }
    assert(map_of(m) =~= want);
}

/// Appending an entry with a new key is an insertion into the map.
pub proof fn lemma_map_of_push<A, B>(l: Seq<(A, B)>, k: A, v: B)
    requires
        distinct_keys(l),
        key_index(l, k, 0) == l.len(),
    ensures
        distinct_keys(l.push((k, v))),
        map_of(l.push((k, v))) == map_of(l).insert(k, v),
{
    let m = l.push((k, v));
    lemma_key_index(l, k, 0);
    assert forall|a: int, b: int| 0 <= a < b < m.len() implies m[a].0 != m[b].0 by {
        if b == l.len() {
            assert(l[a].0 != k);
        } else {
            assert(l[a].0 != l[b].0);
        }
    }
    assert forall|q: A|
        key_index(m, q, 0) == (if q == k {
            l.len() as int
        } else if key_index(l, q, 0) < l.len() {
            key_index(l, q, 0)
        } else {
            l.len() as int + 1
        }) by {
        lemma_key_index(l, q, 0);
        let at = key_index(l, q, 0);
        assert forall|j: int| 0 <= j < at implies (#[trigger] m[j]).0 != q by {
            assert(l[j].0 != q);
        }
        if q == k {
            lemma_key_index_is(m, q, 0, l.len() as int);
        } else if at < l.len() {
            lemma_key_index_is(m, q, 0, at);
        } else {
            lemma_key_index_is(m, q, 0, l.len() as int + 1);
        }
    }
    assert(m.len() == l.len() + 1);
    let want = map_of(l).insert(k, v);
    assert forall|q: A| map_of(m).contains_key(q) == want.contains_key(q) by {
        lemma_key_index(l, q, 0);
        lemma_key_index(m, q, 0);
    }
    assert forall|q: A| map_of(m).contains_key(q) implies map_of(m)[q] == want[q] by {
        lemma_key_index(l, q, 0);
        lemma_key_index(m, q, 0);
    }
    assert(map_of(m) =~= want);
}

/// A map from keys to values that remembers the order of first insertion.
#[derive(Debug)]
pub struct ListMap<K: MapKey> {
    entries: Vec<(K, String)>,
}

impl<K: MapKey> ListMap<K> {
    /// The entries in order, each key and value by its view.
    pub closed spec fn listing(&self) -> Seq<(K::V, Seq<char>)> {
        Seq::new(self.entries@.len(), |i: int| (self.entries@[i].0@, self.entries@[i].1@))
    }

    /// The value that stands at place `i`.
    pub closed spec fn value_at(&self, i: int) -> String {
        self.entries@[i].1
    }

    /// The key that stands at place `i`.
    pub closed spec fn key_at(&self, i: int) -> K {
        self.entries@[i].0
    }

    /// No key occurs twice.
    pub open spec fn wf(&self) -> bool {
        distinct_keys(self.listing())
    }

    #[verifier::type_invariant]
    closed spec fn inv(&self) -> bool {
        self.wf()
    }

    pub open spec fn spec_len(&self) -> nat {
        self.listing().len()
    }

    pub fn new() -> (m: Self)
        ensures
            m.listing() == Seq::<(K::V, Seq<char>)>::empty(),
            m@ == Map::<K::V, Seq<char>>::empty(),
            m.wf(),
    {
        let m = ListMap { entries: Vec::new() };
        assert(m.listing() == Seq::<(K::V, Seq<char>)>::empty());
        m
    }

    pub fn len(&self) -> (n: usize)
        ensures
            n == self.spec_len(),
    {
        self.entries.len()
    }

    pub fn is_empty(&self) -> (b: bool)
        ensures
            b == (self.spec_len() == 0),
    {
        self.entries.len() == 0
    }

    /// The place of a key in the listing.
    pub fn position(&self, key: &K) -> (at: Option<usize>)
        ensures
            self.wf(),
            match at {
                Some(i) => i == key_index(self.listing(), key@, 0) && i < self.spec_len()
                    && self.listing()[i as int].0 == key@ && self@.contains_key(key@) && self@[key@]
                    == self.listing()[i as int].1,
                None => key_index(self.listing(), key@, 0) == self.spec_len()
                    && !self@.contains_key(key@),
            },
    {
        proof {
            use_type_invariant(self);
        }
        let mut i: usize = 0;
        while i < self.entries.len()
            invariant
                i <= self.entries@.len(),
                self.wf(),
                self.listing().len() == self.entries@.len(),
                key_index(self.listing(), key@, 0) == key_index(self.listing(), key@, i as int),
            decreases self.entries@.len() - i,
        {
            if self.entries[i].0.same(key) {
                proof {
                    lemma_key_index(self.listing(), key@, i as int);
                }
                return Some(i);
            }
            i += 1;
        }
        None
    }

    pub fn contains_key(&self, key: &K) -> (b: bool)
        ensures
            b == self@.contains_key(key@),
    {
        self.position(key).is_some()
    }

    pub fn get(&self, key: &K) -> (value: Option<&String>)
        ensures
            value is Some == self@.contains_key(key@),
            value matches Some(v) ==> v@ == self@[key@] && *v == self.value_at(
                key_index(self.listing(), key@, 0),
            ),
    {
        match self.position(key) {
            Some(i) => Some(&self.entries[i].1),
            None => None,
        }
    }

    /// The key at a place of the listing.
    pub fn key(&self, i: usize) -> (key: &K)
        requires
            i < self.spec_len(),
        ensures
            *key == self.key_at(i as int),
            key@ == self.listing()[i as int].0,
    {
        &self.entries[i].0
    }

    /// The value at a place of the listing.
    pub fn value(&self, i: usize) -> (value: &String)
        requires
            i < self.spec_len(),
        ensures
            *value == self.value_at(i as int),
            value@ == self.listing()[i as int].1,
    {
        &self.entries[i].1
    }

    /// Sets the value of a key. A key that is new goes to the end of the
    /// listing; one that is present keeps its place. Returns the value that
    /// the key had.
    pub fn insert(&mut self, key: K, value: String) -> (previous: Option<String>)
        ensures
            final(self).wf(),
            final(self)@ == old(self)@.insert(key@, value@),
            previous is Some == old(self)@.contains_key(key@),
            previous matches Some(p) ==> p@ == old(self)@[key@],
            final(self).listing() == listing_insert(old(self).listing(), key@, value@),
    {
        let ghost before = self.listing();
        proof {
            use_type_invariant(&*self);
        }
        let found = self.position(&key);
        let mut entries: Vec<(K, String)> = Vec::new();
        core::mem::swap(&mut entries, &mut self.entries);
        let ghost held = Seq::new(entries@.len(), |i: int| (entries@[i].0@, entries@[i].1@));
        assert(held == before);
        let previous = match found {
            Some(i) => {
                let (k, old_value) = entries.remove(i);
                entries.insert(i, (k, value));
                proof {
                    lemma_map_of_update(before, i as int, value@);
                }
                Some(old_value)
            },
            None => {
                entries.push((key, value));
                proof {
                    lemma_map_of_push(before, key@, value@);
                }
                None
            },
        };
        let ghost after = Seq::new(entries@.len(), |i: int| (entries@[i].0@, entries@[i].1@));
        assert(previous is Some ==> after == before.update(found->0 as int, (key@, value@)));
        assert(previous is None ==> after == before.push((key@, value@)));
        core::mem::swap(&mut entries, &mut self.entries);
        assert(self.listing() == after);
        previous
    }
}

impl<K: MapKey> View for ListMap<K> {
    type V = Map<K::V, Seq<char>>;

    open spec fn view(&self) -> Map<K::V, Seq<char>> {
        map_of(self.listing())
    }
}


impl<K: MapKey> Clone for ListMap<K> {
    fn clone(&self) -> (copy: Self)
        ensures
            copy.listing() == self.listing(),
            copy@ == self@,
    {
        proof {
            use_type_invariant(self);
        }
        let mut entries: Vec<(K, String)> = Vec::new();
        let mut i: usize = 0;
        while i < self.entries.len()
            invariant
                i <= self.entries@.len(),
                entries@.len() == i,
                forall|j: int|
                    0 <= j < i ==> (#[trigger] entries@[j]).0@ == self.entries@[j].0@
                        && entries@[j].1@ == self.entries@[j].1@,
            decreases self.entries@.len() - i,
        {
            let key = self.entries[i].0.duplicate();
            let value = self.entries[i].1.clone();
            entries.push((key, value));
            i += 1;
        }
        let ghost held = Seq::new(entries@.len(), |i: int| (entries@[i].0@, entries@[i].1@));
        assert(held == self.listing());
        ListMap { entries }
    }
}

} // verus!
