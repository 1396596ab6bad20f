//! A verified association map from string keys to values, used for the
//! handler registry and the pending-call table.  The view is a
//! `Map<Seq<char>, V>`; keys are kept pairwise distinct.

use vstd::prelude::*;

use crate::text::str_eq;

verus! {

/// The map denoted by an entry list: later entries override earlier ones,
/// though well-formed maps keep keys unique.
pub open spec fn map_of<V>(entries: Seq<(String, V)>) -> Map<Seq<char>, V>
    decreases entries.len(),
{
    if entries.len() == 0 {
        Map::empty()
    } else {
        map_of(entries.drop_last()).insert(entries.last().0@, entries.last().1)
    }
}

/// Some entry carries the key `k`.
pub open spec fn has_key<V>(entries: Seq<(String, V)>, k: Seq<char>) -> bool {
    exists|i: int| 0 <= i < entries.len() && (#[trigger] entries[i].0)@ == k
}

/// No two entries share a key.
pub open spec fn unique_keys<V>(entries: Seq<(String, V)>) -> bool {
    forall|i: int, j: int|
        0 <= i < j < entries.len() ==> (#[trigger] entries[i].0)@ != (#[trigger] entries[j].0)@
}

proof fn lemma_map_of_dom<V>(entries: Seq<(String, V)>)
    ensures
        forall|k: Seq<char>| #[trigger] map_of(entries).contains_key(k) == has_key(entries, k),
    decreases entries.len(),
{
    if entries.len() == 0 {
    } else {
        let prefix = entries.drop_last();
        lemma_map_of_dom(prefix);
        assert forall|k: Seq<char>| #[trigger]
            map_of(entries).contains_key(k) == has_key(entries, k) by {
            if map_of(entries).contains_key(k) {
                if k == entries.last().0@ {
                    assert((entries[entries.len() - 1].0)@ == k);
                    assert(has_key(entries, k));
                } else {
                    assert(map_of(prefix).contains_key(k));
                    assert(has_key(prefix, k));
                    let i = choose|i: int|
                        0 <= i < prefix.len() && (#[trigger] prefix[i].0)@ == k;
                    assert(prefix[i] == entries[i]);
                    assert((entries[i].0)@ == k);
                    assert(has_key(entries, k));
                }
            }
            if has_key(entries, k) {
                let i = choose|i: int|
                    0 <= i < entries.len() && (#[trigger] entries[i].0)@ == k;
                if i < entries.len() - 1 {
                    assert(prefix[i] == entries[i]);
                    assert((prefix[i].0)@ == k);
                    assert(has_key(prefix, k));
                    assert(map_of(prefix).contains_key(k));
                    assert(map_of(entries).contains_key(k));
                } else {
                    assert(k == entries.last().0@);
                    assert(map_of(entries).contains_key(k));
                }
            }
        }
    }
}

proof fn lemma_map_of_get<V>(entries: Seq<(String, V)>, i: int)
    requires
        unique_keys(entries),
        0 <= i < entries.len(),
    ensures
        map_of(entries).contains_key(entries[i].0@),
        map_of(entries)[entries[i].0@] == entries[i].1,
    decreases entries.len(),
{
    if i == entries.len() - 1 {
    } else {
        let prefix = entries.drop_last();
        lemma_map_of_get(prefix, i);
        assert(prefix[i] == entries[i]);
        assert(entries[i].0@ != entries.last().0@);
    }
}

proof fn lemma_map_of_update<V>(entries: Seq<(String, V)>, i: int, p: (String, V))
    requires
        unique_keys(entries),
        0 <= i < entries.len(),
        entries[i].0@ == p.0@,
    ensures
        map_of(entries.update(i, p)) == map_of(entries).insert(p.0@, p.1),
    decreases entries.len(),
{
    let updated = entries.update(i, p);
    if i == entries.len() - 1 {
        assert(updated.drop_last() =~= entries.drop_last());
        assert(map_of(updated) =~= map_of(entries).insert(p.0@, p.1));
    } else {
        let prefix = entries.drop_last();
        lemma_map_of_update(prefix, i, p);
        assert(updated.drop_last() =~= prefix.update(i, p));
        assert(entries[i].0@ != entries.last().0@);
        assert(map_of(updated) =~= map_of(entries).insert(p.0@, p.1));
    }
}

proof fn lemma_map_of_remove<V>(entries: Seq<(String, V)>, i: int)
    requires
        unique_keys(entries),
        0 <= i < entries.len(),
    ensures
        map_of(entries.remove(i)) == map_of(entries).remove(entries[i].0@),
    decreases entries.len(),
{
    let removed = entries.remove(i);
    let k = entries[i].0@;
    if i == entries.len() - 1 {
        assert(removed =~= entries.drop_last());
        lemma_map_of_dom(entries.drop_last());
        assert(!has_key(entries.drop_last(), k)) by {
            if has_key(entries.drop_last(), k) {
                let j = choose|j: int|
                    0 <= j < entries.drop_last().len()
                        && (#[trigger] entries.drop_last()[j].0)@ == k;
                assert(entries[j].0@ == entries[i].0@);
            }
        }
        assert(map_of(removed) =~= map_of(entries).remove(k));
    } else {
        let prefix = entries.drop_last();
        lemma_map_of_remove(prefix, i);
        assert(removed.drop_last() =~= prefix.remove(i));
        assert(removed.last() == entries.last());
        assert(entries[i].0@ != entries.last().0@);
        assert(map_of(removed) =~= map_of(entries).remove(k));
    }
}

/// A map from string keys to values, backed by a vector of entries with
/// pairwise-distinct keys.
pub struct StringMap<V> {
    entries: Vec<(String, V)>,
}

impl<V> View for StringMap<V> {
    type V = Map<Seq<char>, V>;

    closed spec fn view(&self) -> Map<Seq<char>, V> {
        map_of(self.entries@)
    }
}

impl<V> StringMap<V> {
    /// Keys are pairwise distinct; constructors establish this and every
    /// method preserves it.
    pub closed spec fn wf(self) -> bool {
        unique_keys(self.entries@)
    }

    /// The empty map.
    pub fn new() -> (r: Self)
        ensures
            r.wf(),
            r@ == Map::<Seq<char>, V>::empty(),
    {
        StringMap { entries: Vec::new() }
    }

    fn find_index(&self, key: &str) -> (r: Option<usize>)
        ensures
            match r {
                Some(i) => i < self.entries@.len() && self.entries@[i as int].0@ == key@,
                None => !has_key(self.entries@, key@),
            },
    {
        let n: usize = self.entries.len();
        let mut i: usize = 0;
        while i < n
            invariant
                n == self.entries@.len(),
                i <= n,
                forall|j: int| 0 <= j < i ==> (#[trigger] self.entries@[j].0)@ != key@,
            decreases n - i,
        {
            if str_eq(self.entries[i].0.as_str(), key) {
                return Some(i);
            }
            i += 1;
        }
        None
    }

    /// Whether a value is stored under `key`.
    pub fn contains_key(&self, key: &str) -> (r: bool)
        requires
            self.wf(),
        ensures
            r == self@.contains_key(key@),
    {
        proof {
            lemma_map_of_dom(self.entries@);
        }
        self.find_index(key).is_some()
    }

    /// The value stored under `key`, if any.
    pub fn get(&self, key: &str) -> (r: Option<&V>)
        requires
            self.wf(),
        ensures
            match r {
                Some(v) => self@.contains_key(key@) && *v == self@[key@],
                None => !self@.contains_key(key@),
            },
    {
        proof {
            lemma_map_of_dom(self.entries@);
        }
        match self.find_index(key) {
            Some(i) => {
                proof {
                    lemma_map_of_get(self.entries@, i as int);
                }
                Some(&self.entries[i].1)
            },
            None => None,
        }
    }

    /// Inserts or replaces the value under `key` (last write wins).
    pub fn insert(&mut self, key: String, value: V)
        requires
            old(self).wf(),
        ensures
            final(self).wf(),
            final(self)@ == old(self)@.insert(key@, value),
    {
        let ghost gkey = key@;
        let ghost gvalue = value;
        match self.find_index(key.as_str()) {
            Some(i) => {
                let ghost e0 = self.entries@;
                self.entries.remove(i);
                proof {
                    assert forall|x: int, y: int|
                        0 <= x < y < self.entries@.len() implies
                        (#[trigger] self.entries@[x].0)@ != (#[trigger] self.entries@[y].0)@ by {
                        if y < i {
                            assert(e0[x] == self.entries@[x] && e0[y] == self.entries@[y]);
                        } else if x < i {
                            assert(e0[x] == self.entries@[x] && e0[y + 1] == self.entries@[y]);
                        } else {
                            assert(e0[x + 1] == self.entries@[x] && e0[y + 1] == self.entries@[y]);
                        }
                    }
                }
                self.entries.insert(i, (key, value));
                proof {
                    assert(self.entries@ =~= e0.update(i as int, self.entries@[i as int]));
                    assert(self.entries@[i as int].0@ == gkey);
                    assert forall|x: int, y: int|
                        0 <= x < y < self.entries@.len() implies
                        (#[trigger] self.entries@[x].0)@ != (#[trigger] self.entries@[y].0)@ by {
                        assert(e0[x].0@ == self.entries@[x].0@ || x == i);
                        assert(e0[y].0@ == self.entries@[y].0@ || y == i);
                        assert(e0[i as int].0@ == self.entries@[i as int].0@);
                    }
                    lemma_map_of_update(e0, i as int, self.entries@[i as int]);
                }
            },
            None => {
                let ghost e0 = self.entries@;
                self.entries.push((key, value));
                proof {
                    assert forall|x: int, y: int|
                        0 <= x < y < self.entries@.len() implies
                        (#[trigger] self.entries@[x].0)@ != (#[trigger] self.entries@[y].0)@ by {
                        if y == e0.len() {
                            assert(e0[x].0@ != gkey);
                        } else {
                            assert(e0[x] == self.entries@[x] && e0[y] == self.entries@[y]);
                        }
                    }
                    assert(self.entries@.drop_last() =~= e0);
                    assert(map_of(self.entries@) == map_of(e0).insert(gkey, gvalue));
                }
            },
        }
    }

    /// Removes and returns the value under `key`, if any.
    pub fn remove(&mut self, key: &str) -> (r: Option<V>)
        requires
            old(self).wf(),
        ensures
            final(self).wf(),
            match r {
                Some(v) => old(self)@.contains_key(key@) && v == old(self)@[key@] && final(self)@
                    == old(self)@.remove(key@),
                None => !old(self)@.contains_key(key@) && final(self)@ == old(self)@,
            },
    {
        proof {
            lemma_map_of_dom(self.entries@);
        }
        match self.find_index(key) {
            Some(i) => {
                let ghost e0 = self.entries@;
                proof {
                    lemma_map_of_get(e0, i as int);
                    lemma_map_of_remove(e0, i as int);
                }
                let (_k, v) = self.entries.remove(i);
                proof {
                    assert forall|x: int, y: int|
                        0 <= x < y < self.entries@.len() implies
                        (#[trigger] self.entries@[x].0)@ != (#[trigger] self.entries@[y].0)@ by {
                        if y < i {
                            assert(e0[x] == self.entries@[x] && e0[y] == self.entries@[y]);
                        } else if x < i {
                            assert(e0[x] == self.entries@[x] && e0[y + 1] == self.entries@[y]);
                        } else {
                            assert(e0[x + 1] == self.entries@[x] && e0[y + 1] == self.entries@[y]);
                        }
                    }
                }
                Some(v)
            },
            None => None,
        }
    }
}

} // verus!
