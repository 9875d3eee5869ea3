//! A small map from texts to values, kept as a list in the order in which
//! the keys came. Each key stands in it at most once.

use crate::text::same_text;
use vstd::prelude::*;

verus! {

/// One key with its value.
#[derive(Debug)]
pub struct TextEntry<V> {
    pub key: String,
    pub value: V,
}

/// A map from texts to values.
#[derive(Debug)]
pub struct TextMap<V> {
    pub entries: Vec<TextEntry<V>>,
}

/// The keys of a list of entries.
pub open spec fn keys_of<V>(entries: Seq<TextEntry<V>>) -> Seq<Seq<char>> {
    Seq::new(entries.len(), |i: int| entries[i].key@)
}

/// The first position at or after `start` that holds `key`, or the length
/// of `keys`.
pub open spec fn find_key_from(keys: Seq<Seq<char>>, key: Seq<char>, start: int) -> int
    decreases keys.len() - start,
{
    if start < 0 || start >= keys.len() {
        keys.len() as int
    } else if keys[start] == key {
        start
    } else {
        find_key_from(keys, key, start + 1)
    }
}

/// `keys` without the first `key` in it.
pub open spec fn without_key(keys: Seq<Seq<char>>, key: Seq<char>) -> Seq<Seq<char>> {
    let at = find_key_from(keys, key, 0);
    if 0 <= at < keys.len() {
        keys.remove(at)
    } else {
        keys
    }
}

/// Whether no text stands twice in `keys`.
pub open spec fn distinct(keys: Seq<Seq<char>>) -> bool {
    forall|i: int, j: int| 0 <= i < j < keys.len() ==> keys[i] != keys[j]
}

/// The search finds the first position of the key from `start` on.
pub proof fn find_key_is_first(keys: Seq<Seq<char>>, key: Seq<char>, start: int)
    requires
        0 <= start <= keys.len(),
    ensures
        start <= find_key_from(keys, key, start) <= keys.len(),
        find_key_from(keys, key, start) < keys.len() ==> keys[find_key_from(keys, key, start)]
            == key,
        forall|k: int| start <= k < find_key_from(keys, key, start) ==> keys[k] != key,
    decreases keys.len() - start,
{
    if start < keys.len() && keys[start] != key {
        find_key_is_first(keys, key, start + 1);
    }
}

/// Where `key` stands at `i` and nowhere between `start` and `i`, the
/// search from `start` ends at `i`.
pub proof fn find_key_hits(keys: Seq<Seq<char>>, key: Seq<char>, start: int, i: int)
    requires
        0 <= start <= i < keys.len(),
        keys[i] == key,
        forall|k: int| start <= k < i ==> keys[k] != key,
    ensures
        find_key_from(keys, key, start) == i,
    decreases i - start,
{
    if start < i {
        find_key_hits(keys, key, start + 1, i);
    }
}

/// Where `key` stands nowhere from `start` on, the search finds nothing.
pub proof fn find_key_misses(keys: Seq<Seq<char>>, key: Seq<char>, start: int)
    requires
        0 <= start <= keys.len(),
        forall|k: int| start <= k < keys.len() ==> keys[k] != key,
    ensures
        find_key_from(keys, key, start) == keys.len(),
    decreases keys.len() - start,
{
    if start < keys.len() {
        find_key_misses(keys, key, start + 1);
    }
}

impl<V> TextMap<V> {
    /// The keys, in the order in which they came.
    pub open spec fn keys(&self) -> Seq<Seq<char>> {
        keys_of(self.entries@)
    }

    /// Each key stands in the map once.
    pub open spec fn wf(&self) -> bool {
        distinct(self.keys())
    }

    /// Whether `key` is bound.
    pub open spec fn has(&self, key: Seq<char>) -> bool {
        find_key_from(self.keys(), key, 0) < self.entries@.len()
    }

    /// The value bound to `key`.
    pub open spec fn value_of(&self, key: Seq<char>) -> Option<V> {
        if self.has(key) {
            Some(self.entries@[find_key_from(self.keys(), key, 0)].value)
        } else {
            None
        }
    }

    /// The map that binds nothing.
    pub fn new() -> (r: Self)
        ensures
            r.wf(),
            r.entries@.len() == 0,
            forall|key: Seq<char>| !r.has(key),
    {
        TextMap { entries: Vec::new() }
    }

    /// How many keys are bound.
    pub fn len(&self) -> (r: usize)
        ensures
            r == self.entries@.len(),
    {
        self.entries.len()
    }

    /// The position of `key`, if it is bound.
    pub fn find(&self, key: &str) -> (r: Option<usize>)
        ensures
            match r {
                Some(i) => self.has(key@) && i == find_key_from(self.keys(), key@, 0) && i
                    < self.entries@.len() && self.entries@[i as int].key@ == key@,
                None => !self.has(key@),
            },
    {
        let mut i: usize = 0;
        while i < self.entries.len()
            invariant
                i <= self.entries.len(),
                find_key_from(self.keys(), key@, 0) == find_key_from(self.keys(), key@, i as int),
            decreases self.entries.len() - i,
        {
            if same_text(self.entries[i].key.as_str(), key) {
                return Some(i);
            }
            i += 1;
        }
        None
    }

    /// Whether `key` is bound.
    pub fn contains(&self, key: &str) -> (r: bool)
        ensures
            r == self.has(key@),
    {
        self.find(key).is_some()
    }

    /// The value bound to `key`.
    pub fn get(&self, key: &str) -> (r: Option<&V>)
        ensures
            match r {
                Some(v) => self.value_of(key@) == Some(*v),
                None => self.value_of(key@) is None,
            },
    {
        match self.find(key) {
            Some(i) => Some(&self.entries[i].value),
            None => None,
        }
    }

    /// Binds `key` to `value`. A value bound to it before gives way, and the
    /// key keeps its place; a new key goes to the end.
    pub fn insert(&mut self, key: &str, value: V)
        requires
            old(self).wf(),
        ensures
            final(self).wf(),
            final(self).value_of(key@) == Some(value),
            forall|other: Seq<char>|
                other != key@ ==> final(self).value_of(other) == old(self).value_of(other),
            final(self).entries@.len() == if old(self).has(key@) {
                old(self).entries@.len()
            } else {
                old(self).entries@.len() + 1
            },
            final(self).keys() == if old(self).has(key@) {
                old(self).keys()
            } else {
                old(self).keys().push(key@)
            },
    {
        let ghost before = *self;
        let at = self.find(key);
        match at {
            Some(i) => {
                self.entries.set(i, TextEntry { key: String::from_str(key), value });
                proof {
                    assert(self.keys() =~= before.keys());
                    assert forall|other: Seq<char>| other != key@ implies self.value_of(other)
                        == before.value_of(other) by {
                        find_key_is_first(before.keys(), other, 0);
                    }
                }
            },
            None => {
                self.entries.push(TextEntry { key: String::from_str(key), value });
                proof {
                    let keys = before.keys();
                    let after = self.keys();
                    assert(after =~= keys.push(key@));
                    find_key_is_first(keys, key@, 0);
                    find_key_hits(after, key@, 0, keys.len() as int);
                    assert forall|other: Seq<char>| other != key@ implies self.value_of(other)
                        == before.value_of(other) by {
                        find_key_is_first(keys, other, 0);
                        let j = find_key_from(keys, other, 0);
                        if j < keys.len() {
                            find_key_hits(after, other, 0, j);
                        } else {
                            find_key_misses(after, other, 0);
                        }
                    }
                }
            },
        }
    }

    /// Takes `key` out of the map and says whether it was bound.
    pub fn remove(&mut self, key: &str) -> (r: bool)
        requires
            old(self).wf(),
        ensures
            final(self).wf(),
            r == old(self).has(key@),
            !final(self).has(key@),
            forall|other: Seq<char>|
                other != key@ ==> final(self).value_of(other) == old(self).value_of(other),
            !r ==> final(self).entries@ == old(self).entries@,
            r ==> final(self).entries@.len() == old(self).entries@.len() - 1,
            final(self).keys() == without_key(old(self).keys(), key@),
    {
        let ghost before = *self;
        match self.find(key) {
            Some(i) => {
                let _ = self.entries.remove(i);
                proof {
                    let keys = before.keys();
                    let after = self.keys();
                    assert(after =~= keys.remove(i as int));
                    find_key_is_first(keys, key@, 0);
                    assert(keys[i as int] == key@);
                    assert forall|k: int| 0 <= k < after.len() implies after[k] != key@ by {
                        if k < i {
                            assert(after[k] == keys[k]);
                        } else {
                            assert(after[k] == keys[k + 1]);
                            assert(keys[i as int] != keys[k + 1]);
                        }
                    }
                    assert forall|a: int, b: int| 0 <= a < b < after.len() implies after[a]
                        != after[b] by {
                        let a0 = if a < i { a } else { a + 1 };
                        let b0 = if b < i { b } else { b + 1 };
                        assert(after[a] == keys[a0]);
                        assert(after[b] == keys[b0]);
                        assert(keys[a0] != keys[b0]);
                    }
                    find_key_misses(after, key@, 0);
                    assert forall|other: Seq<char>| other != key@ implies self.value_of(other)
                        == before.value_of(other) by {
                        find_key_is_first(keys, other, 0);
                        let j = find_key_from(keys, other, 0);
                        if j < keys.len() {
                            let j2 = if j < i {
                                j
                            } else {
                                j - 1
                            };
                            assert(after[j2] == other);
                            assert forall|k: int| 0 <= k < j2 implies after[k] != other by {
                                if k < i {
                                    assert(after[k] == keys[k]);
                                } else {
                                    assert(after[k] == keys[k + 1]);
                                }
                            }
                            find_key_hits(after, other, 0, j2);
                            assert(self.entries@[j2].value == before.entries@[j].value);
                        } else {
                            assert forall|k: int| 0 <= k < after.len() implies after[k]
                                != other by {
                                if k < i {
                                    assert(after[k] == keys[k]);
                                } else {
                                    assert(after[k] == keys[k + 1]);
                                }
                            }
                            find_key_misses(after, other, 0);
                        }
                    }
                }
                true
            },
            None => false,
        }
    }
}

/// Once a key is taken out of keys that differ from one another, taking it
/// out again changes nothing.
pub proof fn without_key_twice(keys: Seq<Seq<char>>, key: Seq<char>)
    requires
        distinct(keys),
    ensures
        without_key(without_key(keys, key), key) == without_key(keys, key),
        find_key_from(without_key(keys, key), key, 0) == without_key(keys, key).len(),
{
    let at = find_key_from(keys, key, 0);
    find_key_is_first(keys, key, 0);
    let after = without_key(keys, key);
    if at < keys.len() {
        assert forall|k: int| 0 <= k < after.len() implies after[k] != key by {
            if k < at {
                assert(after[k] == keys[k]);
            } else {
                assert(after[k] == keys[k + 1]);
                assert(keys[at] != keys[k + 1]);
            }
        }
    }
    find_key_misses(after, key, 0);
}

} // verus!
