//! A mapping from string keys to string values that remembers the order in
//! which keys were first written.

use vstd::prelude::*;
use vstd::string::*;
use crate::text::same_text;

verus! {

/// What specifications see of a mapping: its entries, key then value, in
/// the order in which they are walked.
pub type Entries = Seq<(Seq<char>, Seq<char>)>;

/// No key stands at two places.
pub open spec fn keys_distinct(entries: Entries) -> bool {
    forall|i: int, j: int| 0 <= i < j < entries.len() ==> entries[i].0 != entries[j].0
}

/// Some entry has this key.
pub open spec fn has_key(entries: Entries, key: Seq<char>) -> bool {
    exists|i: int| 0 <= i < entries.len() && (#[trigger] entries[i]).0 == key
}

/// A place at which `key` stands; meaningful where `has_key` holds.
pub open spec fn index_of(entries: Entries, key: Seq<char>) -> int {
    choose|i: int| 0 <= i < entries.len() && (#[trigger] entries[i]).0 == key
}

/// The value written for `key`, if any.
pub open spec fn lookup(entries: Entries, key: Seq<char>) -> Option<Seq<char>> {
    if has_key(entries, key) {
        Some(entries[index_of(entries, key)].1)
    } else {
        None
    }
}

/// The entries after writing `value` for `key`: a key already present keeps
/// its place and takes the new value, a new key goes to the end.
pub open spec fn put(entries: Entries, key: Seq<char>, value: Seq<char>) -> Entries {
    if has_key(entries, key) {
        entries.update(index_of(entries, key), (key, value))
    } else {
        entries.push((key, value))
    }
}

/// The entries as a mathematical map, their order forgotten.
pub open spec fn as_map(entries: Entries) -> Map<Seq<char>, Seq<char>> {
    Map::new(|key: Seq<char>| has_key(entries, key), |key: Seq<char>| entries[index_of(entries, key)].1)
}

/// With distinct keys, the place of a key is the place where it is seen.
pub proof fn lemma_index_of_unique(entries: Entries, i: int)
    requires
        keys_distinct(entries),
        0 <= i < entries.len(),
    ensures
        has_key(entries, entries[i].0),
        index_of(entries, entries[i].0) == i,
        lookup(entries, entries[i].0) == Some(entries[i].1),
{
    let key = entries[i].0;
    let j = index_of(entries, key);
    assert(0 <= j < entries.len() && entries[j].0 == key);
    if j < i {
        assert(entries[j].0 != entries[i].0);
    } else if i < j {
        assert(entries[i].0 != entries[j].0);
    }
}

/// Writing keeps the keys distinct, is read back, leaves every other key as
/// it was, and is `Map::insert` on the map view: the last write wins.
pub proof fn lemma_put(entries: Entries, key: Seq<char>, value: Seq<char>)
    requires
        keys_distinct(entries),
    ensures
        keys_distinct(put(entries, key, value)),
        lookup(put(entries, key, value), key) == Some(value),
        forall|other: Seq<char>|
            other != key ==> lookup(put(entries, key, value), other) == lookup(entries, other),
        as_map(put(entries, key, value)) == as_map(entries).insert(key, value),
        put(entries, key, value).len() == if has_key(entries, key) {
            entries.len()
        } else {
            entries.len() + 1
        },
{
    let after = put(entries, key, value);
    let at = if has_key(entries, key) {
        index_of(entries, key)
    } else {
        entries.len() as int
    };
    assert(0 <= at < after.len() && after[at] == (key, value));
    assert forall|i: int| 0 <= i < after.len() && i != at implies after[i] == entries[i]
        && after[i].0 != key by {
        if has_key(entries, key) {
            lemma_index_of_unique(entries, at);
            if i < at {
                assert(entries[i].0 != entries[at].0);
            } else {
                assert(entries[at].0 != entries[i].0);
            }
        } else {
            assert(entries[i].0 != key);
        }
    }
    assert(keys_distinct(after)) by {
        assert forall|i: int, j: int| 0 <= i < j < after.len() implies after[i].0 != after[j].0 by {
            if i != at && j != at {
                assert(entries[i].0 != entries[j].0);
            }
        }
    }
    lemma_index_of_unique(after, at);
    assert forall|other: Seq<char>| other != key implies lookup(after, other) == lookup(
        entries,
        other,
    ) by {
        if has_key(entries, other) {
            let i = index_of(entries, other);
            assert(i != at);
            assert(after[i] == entries[i]);
            lemma_index_of_unique(entries, i);
            lemma_index_of_unique(after, i);
        } else if has_key(after, other) {
            let i = index_of(after, other);
            assert(i != at);
            assert(entries[i].0 == other);
        }
    }
    assert(as_map(after) =~= as_map(entries).insert(key, value)) by {
        assert forall|k: Seq<char>| as_map(after).dom().contains(k) == as_map(entries).insert(
            key,
            value,
        ).dom().contains(k) by {
            if k != key {
                assert(lookup(after, k) == lookup(entries, k));
            }
        }
        assert forall|k: Seq<char>| as_map(after).dom().contains(k) implies as_map(after)[k]
            == as_map(entries).insert(key, value)[k] by {
            if k != key {
                assert(lookup(after, k) == lookup(entries, k));
            } else {
                assert(lookup(after, key) == Some(value));
            }
        }
    }
}

/// A mapping from string keys to string values. A key occurs once; entries
/// are walked in the order in which their keys were first written.
#[derive(Debug)]
pub struct StringMap {
    entries: Vec<(String, String)>,
}

impl View for StringMap {
    type V = Entries;

    closed spec fn view(&self) -> Entries {
        Seq::new(self.entries@.len(), |i: int| (self.entries@[i].0@, self.entries@[i].1@))
    }
}

impl StringMap {
    /// Every mapping that executable code can hold has distinct keys.
    #[verifier::type_invariant]
    pub open spec fn wf(&self) -> bool {
        keys_distinct(self@)
    }

    /// The mapping as a mathematical map.
    pub open spec fn map(&self) -> Map<Seq<char>, Seq<char>> {
        as_map(self@)
    }

    /// The mapping without entries.
    pub fn new() -> (fields: StringMap)
        ensures
            fields@ == Entries::empty(),
    {
        StringMap { entries: Vec::new() }
    }

    /// The number of entries.
    pub fn len(&self) -> (n: usize)
        ensures
            n == self@.len(),
    {
        self.entries.len()
    }

    /// Whether there is no entry.
    pub fn is_empty(&self) -> (empty: bool)
        ensures
            empty == (self@.len() == 0),
    {
        self.entries.len() == 0
    }

    /// The place of `key` among the entries, if it is there.
    fn position(&self, key: &str) -> (at: Option<usize>)
        ensures
            match at {
                Some(i) => i < self@.len() && self@[i as int].0 == key@ && has_key(self@, key@)
                    && index_of(self@, key@) == i,
                None => !has_key(self@, key@),
            },
    {
        proof {
            use_type_invariant(self);
        }
        let mut i: usize = 0;
        while i < self.entries.len()
            invariant
                i <= self.entries.len(),
                keys_distinct(self@),
                forall|j: int| 0 <= j < i ==> (#[trigger] self@[j]).0 != key@,
            decreases self.entries.len() - i,
        {
            if same_text(self.entries[i].0.as_str(), key) {
                proof {
                    lemma_index_of_unique(self@, i as int);
                }
                return Some(i);
            }
            i += 1;
        }
        None
    }

    /// Whether a value was written for `key`.
    pub fn contains_key(&self, key: &str) -> (found: bool)
        ensures
            found == has_key(self@, key@),
    {
        self.position(key).is_some()
    }

    /// The value written for `key`, if any.
    pub fn get(&self, key: &str) -> (value: Option<&String>)
        ensures
            match value {
                Some(v) => lookup(self@, key@) == Some(v@),
                None => lookup(self@, key@).is_none(),
            },
    {
        match self.position(key) {
            Some(i) => Some(&self.entries[i].1),
            None => None,
        }
    }

    /// The key and the value at place `i` of the walk.
    pub fn entry(&self, i: usize) -> (pair: (&String, &String))
        requires
            i < self@.len(),
        ensures
            pair.0@ == self@[i as int].0,
            pair.1@ == self@[i as int].1,
    {
        (&self.entries[i].0, &self.entries[i].1)
    }

    /// Writes `value` for `key` and returns the value that stood there
    /// before. A key already present keeps its place in the walk.
    pub fn insert(&mut self, key: String, value: String) -> (previous: Option<String>)
        ensures
            final(self)@ == put(old(self)@, key@, value@),
            final(self).map() == old(self).map().insert(key@, value@),
            match previous {
                Some(p) => lookup(old(self)@, key@) == Some(p@),
                None => lookup(old(self)@, key@).is_none(),
            },
    {
        proof {
            use_type_invariant(&*self);
            lemma_put(self@, key@, value@);
        }
        let at = self.position(key.as_str());
        let mut entries: Vec<(String, String)> = Vec::new();
        core::mem::swap(&mut self.entries, &mut entries);
        let previous = match at {
            Some(i) => {
                let previous = entries[i].1.clone();
                entries.set(i, (key, value));
                Some(previous)
            },
            None => {
                entries.push((key, value));
                None
            },
        };
        assert(Seq::new(entries@.len(), |i: int| (entries@[i].0@, entries@[i].1@)) =~= put(
            old(self)@,
            key@,
            value@,
        ));
        core::mem::swap(&mut self.entries, &mut entries);
        previous
    }

    /// A copy with the same entries in the same order.
    pub fn clone(&self) -> (copy: StringMap)
        ensures
            copy@ == self@,
    {
        proof {
            use_type_invariant(self);
        }
        let mut entries: Vec<(String, String)> = Vec::new();
        let mut i: usize = 0;
        while i < self.entries.len()
            invariant
                i <= self.entries.len(),
                entries@.len() == i,
                forall|j: int|
                    0 <= j < i ==> (#[trigger] entries@[j]).0@ == self.entries@[j].0@
                        && entries@[j].1@ == self.entries@[j].1@,
            decreases self.entries.len() - i,
        {
            entries.push((self.entries[i].0.clone(), self.entries[i].1.clone()));
            i += 1;
        }
        let ghost copied = Seq::new(entries@.len(), |i: int| (entries@[i].0@, entries@[i].1@));
        assert(copied =~= self@);
        StringMap { entries }
    }
}

} // verus!
