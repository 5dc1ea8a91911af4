//! A map from strings, kept as a list of entries no two of which share a key.
use vstd::prelude::*;

use crate::json;

verus! {

/// A map from strings to `V`.
#[derive(Debug, PartialEq, Eq)]
pub struct StringMap<V> {
    entries: Vec<(String, V)>,
}

/// Whether no two entries share a key.
pub open spec fn distinct_keys<V>(entries: Seq<(String, V)>) -> bool {
    forall|i: int, j: int|
        0 <= i < j < entries.len() ==> (#[trigger] entries[i]).0@ != (#[trigger] entries[j]).0@
}

/// The map that a list of entries stands for; of two entries under one key
/// the first counts.
pub open spec fn entries_map<V>(entries: Seq<(String, V)>) -> Map<Seq<char>, V> {
    Map::new(
        |k: Seq<char>| json::key_index(entries, k) < entries.len(),
        |k: Seq<char>| entries[json::key_index(entries, k)].1,
    )
}

proof fn lemma_prepend<V>(e: (String, V), entries: Seq<(String, V)>)
    ensures
        entries_map(seq![e] + entries) =~= entries_map(entries).insert(e.0@, e.1),
{
    let more = seq![e] + entries;
    assert(more.drop_first() =~= entries);
    assert forall|k: Seq<char>| #[trigger] json::key_index(entries, k) >= 0 by {
        json::lemma_key_index(entries, k);
    }
}

proof fn lemma_push<V>(entries: Seq<(String, V)>, e: (String, V))
    requires
        json::key_index(entries, e.0@) == entries.len(),
    ensures
        entries_map(entries.push(e)) =~= entries_map(entries).insert(e.0@, e.1),
        distinct_keys(entries) ==> distinct_keys(entries.push(e)),
{
    let more = entries.push(e);
    json::lemma_key_index(entries, e.0@);
    assert forall|k: Seq<char>|
        json::key_index(more, k) == (if json::key_index(entries, k) < entries.len() {
            json::key_index(entries, k)
        } else if k == e.0@ {
            entries.len() as int
        } else {
            more.len() as int
        }) by {
        json::lemma_key_index(entries, k);
        let i = json::key_index(entries, k);
        if i < entries.len() {
            assert(more[i].0@ == k);
            json::lemma_key_index_is(more, k, i);
        } else if k == e.0@ {
            json::lemma_key_index_is(more, k, entries.len() as int);
        } else {
            json::lemma_key_index_is(more, k, more.len() as int);
        }
    }
    assert forall|k: Seq<char>| #[trigger] json::key_index(entries, k) >= 0 by {
        json::lemma_key_index(entries, k);
    }
}

proof fn lemma_update<V>(entries: Seq<(String, V)>, i: int, e: (String, V))
    requires
        0 <= i < entries.len(),
        entries[i].0@ == e.0@,
        json::key_index(entries, e.0@) == i,
    ensures
        entries_map(entries.update(i, e)) =~= entries_map(entries).insert(e.0@, e.1),
        distinct_keys(entries) ==> distinct_keys(entries.update(i, e)),
{
    let new = entries.update(i, e);
    assert forall|k: Seq<char>|
        json::key_index(new, k) == json::key_index(entries, k) && (json::key_index(entries, k) < entries.len()
            ==> entries[json::key_index(entries, k)].0@ == k) by {
        json::lemma_key_index(entries, k);
        let n = json::key_index(entries, k);
        assert forall|j: int| 0 <= j < n implies (#[trigger] new[j]).0@ != k by {
            assert(entries[j].0@ != k);
        }
        json::lemma_key_index_is(new, k, n);
    }
    assert forall|k: Seq<char>| #[trigger] json::key_index(entries, k) >= 0 by {
        json::lemma_key_index(entries, k);
    }
    if distinct_keys(entries) {
        assert forall|a: int, b: int| 0 <= a < b < new.len() implies (#[trigger] new[a]).0@ != (
        #[trigger] new[b]).0@ by {
            assert(entries[a].0@ != entries[b].0@);
        }
    }
}

impl<V> StringMap<V> {
    #[verifier::type_invariant]
    spec fn inv(self) -> bool {
        distinct_keys(self.entries@)
    }

    /// The entries, in the order in which their keys were first inserted.
    pub closed spec fn entries(self) -> Seq<(String, V)> {
        self.entries@
    }

    /// The map from each key's text to its value.
    pub open spec fn view(self) -> Map<Seq<char>, V> {
        entries_map(self.entries())
    }

    /// A map with no entry.
    pub fn new() -> (r: Self)
        ensures
            r@ == Map::<Seq<char>, V>::empty(),
            r.entries() == Seq::<(String, V)>::empty(),
    {
        let entries: Vec<(String, V)> = Vec::new();
        let r = StringMap { entries };
        assert(r@ =~= Map::<Seq<char>, V>::empty());
        r
    }

    /// How many entries there are.
    pub fn len(&self) -> (r: usize)
        ensures
            r == self.entries().len(),
    {
        self.entries.len()
    }

    /// The key and the value of the `i`-th entry.
    pub fn entry(&self, i: usize) -> (r: (&str, &V))
        requires
            i < self.entries().len(),
        ensures
            r.0@ == self.entries()[i as int].0@,
            *r.1 == self.entries()[i as int].1,
    {
        (self.entries[i].0.as_str(), &self.entries[i].1)
    }

    /// The value under `key`.
    pub fn get(&self, key: &str) -> (r: Option<&V>)
        ensures
            match r {
                Some(v) => self@.contains_key(key@) && self@[key@] == *v,
                None => !self@.contains_key(key@),
            },
    {
        let mut i: usize = 0;
        while i < self.entries.len()
            invariant
                i <= self.entries@.len(),
                forall|j: int| 0 <= j < i ==> (#[trigger] self.entries@[j]).0@ != key@,
            decreases self.entries@.len() - i,
        {
            if *self.entries[i].0.as_str() == *key {
                proof {
                    json::lemma_key_index_is(self.entries@, key@, i as int);
                }
                return Some(&self.entries[i].1);
            }
            i += 1;
        }
        proof {
            json::lemma_key_index_is(self.entries@, key@, i as int);
        }
        None
    }

    /// The value under `key`, taken out of the map.
    pub fn take(self, key: &str) -> (r: Option<V>)
        ensures
            match r {
                Some(v) => self@.contains_key(key@) && self@[key@] == v,
                None => !self@.contains_key(key@),
            },
    {
        let mut entries = self.entries;
        let mut i: usize = 0;
        while i < entries.len()
            invariant
                i <= entries@.len(),
                entries@ == self.entries(),
                forall|j: int| 0 <= j < i ==> (#[trigger] entries@[j]).0@ != key@,
            decreases entries@.len() - i,
        {
            if *entries[i].0.as_str() == *key {
                proof {
                    json::lemma_key_index_is(entries@, key@, i as int);
                }
                return Some(entries.swap_remove(i).1);
            }
            i += 1;
        }
        proof {
            json::lemma_key_index_is(entries@, key@, i as int);
        }
        None
    }

    /// Whether there is a value under `key`.
    pub fn contains_key(&self, key: &str) -> (r: bool)
        ensures
            r == self@.contains_key(key@),
    {
        self.get(key).is_some()
    }

    /// Put `value` under `key`, in place of any value there.
    pub fn insert(&mut self, key: String, value: V)
        ensures
            final(self)@ == old(self)@.insert(key@, value),
    {
        proof {
            use_type_invariant(&*self);
        }
        let mut entries: Vec<(String, V)> = Vec::new();
        std::mem::swap(&mut entries, &mut self.entries);
        let ghost before = entries@;
        let mut i: usize = 0;
        while i < entries.len() && !(*entries[i].0.as_str() == *key.as_str())
            invariant
                i <= entries@.len(),
                entries@ == before,
                forall|j: int| 0 <= j < i ==> (#[trigger] entries@[j]).0@ != key@,
            decreases entries@.len() - i,
        {
            i += 1;
        }
        proof {
            json::lemma_key_index_is(before, key@, i as int);
        }
        if i < entries.len() {
            proof {
                lemma_update(before, i as int, (key, value));
            }
            entries.set(i, (key, value));
        } else {
            proof {
                lemma_push(before, (key, value));
            }
            entries.push((key, value));
        }
        self.entries = entries;
    }

    /// Put every entry of `other` into this map, in place of any value under
    /// the same key.
    pub fn extend(&mut self, other: StringMap<V>)
        ensures
            final(self)@ == old(self)@.union_prefer_right(other@),
    {
        let mut rest = other.entries;
        let ghost all = rest@;
        let ghost start = self@;
        assert(entries_map(all.skip(rest@.len() as int)) =~= Map::<Seq<char>, V>::empty());
        assert(start.union_prefer_right(Map::<Seq<char>, V>::empty()) =~= start);
        while rest.len() > 0
            invariant
                rest@.len() <= all.len(),
                rest@ == all.take(rest@.len() as int),
                self@ == start.union_prefer_right(entries_map(all.skip(rest@.len() as int))),
            decreases rest@.len(),
        {
            let ghost n = rest@.len() as int;
            match rest.pop() {
                Some(e) => {
                    assert(all.skip(n - 1) =~= seq![e] + all.skip(n));
                    proof {
                        lemma_prepend(e, all.skip(n));
                    }
                    assert(start.union_prefer_right(entries_map(all.skip(n))).insert(e.0@, e.1)
                        =~= start.union_prefer_right(entries_map(all.skip(n - 1))));
                    self.insert(e.0, e.1);
                    assert(rest@ =~= all.take(rest@.len() as int));
                },
                None => {},
            }
        }
        assert(all.skip(0) =~= all);
    }
}

impl<V: Clone> Clone for StringMap<V> {
    fn clone(&self) -> (r: Self)
        ensures
            r.entries().len() == self.entries().len(),
            forall|i: int|
                #![trigger r.entries()[i]]
                0 <= i < self.entries().len() ==> r.entries()[i].0@ == self.entries()[i].0@ && cloned(
                    self.entries()[i].1,
                    r.entries()[i].1,
                ),
    {
        proof {
            use_type_invariant(self);
        }
        let mut entries: Vec<(String, V)> = Vec::new();
        let mut i: usize = 0;
        while i < self.entries.len()
            invariant
                i <= self.entries@.len(),
                entries@.len() == i,
                forall|j: int|
                    #![trigger entries@[j]]
                    0 <= j < i ==> entries@[j].0@ == self.entries@[j].0@ && cloned(
                        self.entries@[j].1,
                        entries@[j].1,
                    ),
            decreases self.entries@.len() - i,
        {
            entries.push((self.entries[i].0.clone(), self.entries[i].1.clone()));
            i += 1;
        }
        assert forall|a: int, b: int| 0 <= a < b < entries@.len() implies (
        #[trigger] entries@[a]).0@ != (#[trigger] entries@[b]).0@ by {
            assert(self.entries@[a].0@ != self.entries@[b].0@);
        }
        StringMap { entries }
    }
}

/// Two lists of entries with the same keys in the same order index every key
/// alike.
pub proof fn lemma_same_keys<V, W>(a: Seq<(String, V)>, b: Seq<(String, W)>, key: Seq<char>)
    requires
        a.len() == b.len(),
        forall|i: int| 0 <= i < a.len() ==> (#[trigger] a[i]).0@ == b[i].0@,
    ensures
        json::key_index(a, key) == json::key_index(b, key),
{
    json::lemma_key_index(a, key);
    assert forall|j: int| 0 <= j < json::key_index(a, key) implies (#[trigger] b[j]).0@ != key by {
        assert(a[j].0@ != key);
    }
    json::lemma_key_index_is(b, key, json::key_index(a, key));
}

/// What is put under a key is found there, and every other key as before.
pub proof fn law_inserted_value_is_found<V>(
    map: &mut StringMap<V>,
    after: &StringMap<V>,
    key: String,
    value: V,
    name: &str,
    r: Option<&V>,
    there: bool,
)
    requires
        StringMap::<V>::insert.ensures((map, key, value), ()),
        *after == *final(map),
        StringMap::<V>::get.ensures((after, name), r),
        StringMap::<V>::contains_key.ensures((after, name), there),
    ensures
        there == (r is Some),
        name@ == key@ ==> r is Some && *r->0 == value,
        name@ != key@ ==> (r is Some <==> old(map)@.contains_key(name@)) && (r is Some ==> *r->0
            == old(map)@[name@]),
{
}

/// Extending a map puts every value of the other one under its key, in place of
/// any value there, and keeps every other.
pub proof fn law_extension_wins<V>(
    map: &mut StringMap<V>,
    after: &StringMap<V>,
    other: StringMap<V>,
    name: &str,
    r: Option<&V>,
)
    requires
        StringMap::<V>::extend.ensures((map, other), ()),
        *after == *final(map),
        StringMap::<V>::get.ensures((after, name), r),
    ensures
        other@.contains_key(name@) ==> r is Some && *r->0 == other@[name@],
        !other@.contains_key(name@) ==> (r is Some <==> old(map)@.contains_key(name@)) && (r is Some
            ==> *r->0 == old(map)@[name@]),
{
}

} // verus!
