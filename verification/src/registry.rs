//! An insertion-ordered mapping from names to records.

use vstd::prelude::*;

verus! {

/// Whether no key occurs twice in `entries`.
pub open spec fn distinct_keys<T>(entries: Seq<(Seq<char>, T)>) -> bool {
    forall|i: int, j: int|
        0 <= i < j < entries.len() ==> (#[trigger] entries[i]).0 != (#[trigger] entries[j]).0
}

/// The position of `key` in `entries`, if it is there.
pub open spec fn position_of<T>(entries: Seq<(Seq<char>, T)>, key: Seq<char>) -> Option<int> {
    if exists|i: int| 0 <= i < entries.len() && (#[trigger] entries[i]).0 == key {
        Some(choose|i: int| 0 <= i < entries.len() && (#[trigger] entries[i]).0 == key)
    } else {
        None
    }
}

/// Whether `key` has an entry.
pub open spec fn has_key<T>(entries: Seq<(Seq<char>, T)>, key: Seq<char>) -> bool {
    position_of(entries, key) is Some
}

/// The record stored under `key`, if any.
pub open spec fn lookup<T>(entries: Seq<(Seq<char>, T)>, key: Seq<char>) -> Option<T> {
    match position_of(entries, key) {
        Some(i) => Some(entries[i].1),
        None => None,
    }
}

/// `entries` with `value` stored under `key`: in place of the old record if
/// the key was there, at the end otherwise.
pub open spec fn with_entry<T>(entries: Seq<(Seq<char>, T)>, key: Seq<char>, value: T) -> Seq<
    (Seq<char>, T),
> {
    match position_of(entries, key) {
        Some(i) => entries.update(i, (key, value)),
        None => entries.push((key, value)),
    }
}

/// `entries` without the entry of `key`.
pub open spec fn without_key<T>(entries: Seq<(Seq<char>, T)>, key: Seq<char>) -> Seq<
    (Seq<char>, T),
> {
    match position_of(entries, key) {
        Some(i) => entries.remove(i),
        None => entries,
    }
}

/// The keys of `entries`, in order.
pub open spec fn keys_of<T>(entries: Seq<(Seq<char>, T)>) -> Seq<Seq<char>> {
    Seq::new(entries.len(), |i: int| entries[i].0)
}

/// Where keys are distinct, the position of a key is the one place that
/// holds it.
pub proof fn lemma_position<T>(entries: Seq<(Seq<char>, T)>, key: Seq<char>, i: int)
    requires
        distinct_keys(entries),
        0 <= i < entries.len(),
        entries[i].0 == key,
    ensures
        position_of(entries, key) == Some(i),
{
    let j = position_of(entries, key)->0;
    assert(entries[j].0 == key);
    if j < i {
        assert(entries[j].0 != entries[i].0);
    } else if i < j {
        assert(entries[i].0 != entries[j].0);
    }
}

/// Storing and removing keep keys distinct; a stored record is found again,
/// a removed key is gone, and other keys are untouched.
pub proof fn lemma_with_entry<T>(entries: Seq<(Seq<char>, T)>, key: Seq<char>, value: T)
    requires
        distinct_keys(entries),
    ensures
        distinct_keys(with_entry(entries, key, value)),
        lookup(with_entry(entries, key, value), key) == Some(value),
        forall|other: Seq<char>|
            other != key ==> #[trigger] lookup(with_entry(entries, key, value), other) == lookup(
                entries,
                other,
            ),
{
    let after = with_entry(entries, key, value);
    match position_of(entries, key) {
        Some(i) => {
            assert(entries[i].0 == key);
            assert forall|a: int, b: int| 0 <= a < b < after.len() implies (#[trigger] after[a]).0
                != (#[trigger] after[b]).0 by {
                assert(entries[a].0 != entries[b].0);
            }
            lemma_position(after, key, i);
            assert forall|other: Seq<char>| other != key implies #[trigger] lookup(after, other)
                == lookup(entries, other) by {
                lemma_same_keys_lookup(entries, after, other);
            }
        },
        None => {
            assert forall|a: int, b: int| 0 <= a < b < after.len() implies (#[trigger] after[a]).0
                != (#[trigger] after[b]).0 by {
                if b < entries.len() {
                    assert(entries[a].0 != entries[b].0);
                } else {
                    assert(entries[a].0 != key);
                }
            }
            lemma_position(after, key, entries.len() as int);
            assert forall|other: Seq<char>| other != key implies #[trigger] lookup(after, other)
                == lookup(entries, other) by {
                match position_of(entries, other) {
                    Some(k) => {
                        assert(entries[k].0 == other);
                        lemma_position(after, other, k);
                    },
                    None => {
                        if position_of(after, other) is Some {
                            let k = position_of(after, other)->0;
                            assert(after[k].0 == other);
                            assert(k < entries.len());
                            assert(entries[k].0 == other);
                        }
                    },
                }
            }
        },
    }
}

/// Two sequences with distinct keys that agree wherever the key is `key`
/// agree on the lookup of `key`.
proof fn lemma_same_keys_lookup<T>(
    before: Seq<(Seq<char>, T)>,
    after: Seq<(Seq<char>, T)>,
    key: Seq<char>,
)
    requires
        distinct_keys(before),
        distinct_keys(after),
        before.len() == after.len(),
        forall|i: int|
            0 <= i < before.len() ==> (#[trigger] before[i]).0 == (#[trigger] after[i]).0,
        forall|i: int|
            0 <= i < before.len() && (#[trigger] before[i]).0 == key ==> before[i] == after[i],
    ensures
        lookup(after, key) == lookup(before, key),
{
    match position_of(before, key) {
        Some(k) => {
            assert(before[k].0 == key);
            assert(after[k].0 == key);
            lemma_position(after, key, k);
        },
        None => {
            if position_of(after, key) is Some {
                let k = position_of(after, key)->0;
                assert(after[k].0 == key);
                assert(before[k].0 == key);
            }
        },
    }
}

/// Removing a key keeps keys distinct, leaves the key absent and the other
/// keys untouched.
pub proof fn lemma_without_key<T>(entries: Seq<(Seq<char>, T)>, key: Seq<char>)
    requires
        distinct_keys(entries),
    ensures
        distinct_keys(without_key(entries, key)),
        lookup(without_key(entries, key), key) is None,
        forall|other: Seq<char>|
            other != key ==> #[trigger] lookup(without_key(entries, key), other) == lookup(
                entries,
                other,
            ),
{
    let after = without_key(entries, key);
    match position_of(entries, key) {
        Some(i) => {
            assert(entries[i].0 == key);
            assert forall|a: int| 0 <= a < after.len() implies #[trigger] after[a] == entries[if a
                < i {
                a
            } else {
                a + 1
            }] by {}
            assert forall|a: int, b: int| 0 <= a < b < after.len() implies (#[trigger] after[a]).0
                != (#[trigger] after[b]).0 by {
                let a0 = if a < i {
                    a
                } else {
                    a + 1
                };
                let b0 = if b < i {
                    b
                } else {
                    b + 1
                };
                assert(entries[a0].0 != entries[b0].0);
            }
            if position_of(after, key) is Some {
                let k = position_of(after, key)->0;
                assert(after[k].0 == key);
                let k0 = if k < i {
                    k
                } else {
                    k + 1
                };
                assert(entries[k0].0 == key);
                if k0 < i {
                    assert(entries[k0].0 != entries[i].0);
                } else {
                    assert(entries[i].0 != entries[k0].0);
                }
            }
            assert forall|other: Seq<char>| other != key implies #[trigger] lookup(after, other)
                == lookup(entries, other) by {
                match position_of(entries, other) {
                    Some(k) => {
                        assert(entries[k].0 == other);
                        let k1 = if k < i {
                            k
                        } else {
                            k - 1
                        };
                        assert(after[k1] == entries[k]);
                        lemma_position(after, other, k1);
                    },
                    None => {
                        if position_of(after, other) is Some {
                            let k = position_of(after, other)->0;
                            assert(after[k].0 == other);
                            let k0 = if k < i {
                                k
                            } else {
                                k + 1
                            };
                            assert(entries[k0].0 == other);
                        }
                    },
                }
            }
        },
        None => {},
    }
}

/// One entry of a registry.
#[derive(Debug)]
pub struct Entry<V> {
    pub key: String,
    pub value: V,
}

/// A mapping from names to records that keeps the order of insertion.
#[derive(Debug)]
pub struct Registry<V: View> {
    entries: Vec<Entry<V>>,
}

impl<V: View> View for Registry<V> {
    type V = Seq<(Seq<char>, V::V)>;

    closed spec fn view(&self) -> Seq<(Seq<char>, V::V)> {
        Seq::new(self.entries@.len(), |i: int| (self.entries@[i].key@, self.entries@[i].value@))
    }
}

impl<V: View> Registry<V> {
    /// What every registry satisfies: no key has two entries.
    #[verifier::type_invariant]
    pub open spec fn well_formed(&self) -> bool {
        distinct_keys(self@)
    }

    /// An empty registry.
    pub fn new() -> (r: Self)
        ensures
            r@ == Seq::<(Seq<char>, V::V)>::empty(),
    {
        let r = Registry { entries: Vec::new() };
        assert(r@ =~= Seq::<(Seq<char>, V::V)>::empty());
        r
    }

    /// The number of entries.
    pub fn len(&self) -> (n: usize)
        ensures
            n == self@.len(),
            distinct_keys(self@),
    {
        proof {
            use_type_invariant(self);
        }
        self.entries.len()
    }

    /// The position of `key`, if it has an entry.
    pub fn position(&self, key: &String) -> (r: Option<usize>)
        ensures
            distinct_keys(self@),
            match r {
                Some(i) => position_of(self@, key@) == Some(i as int) && i < self@.len()
                    && self@[i as int].0 == key@,
                None => position_of(self@, key@) is None,
            },
    {
        proof {
            use_type_invariant(self);
        }
        let mut i: usize = 0;
        while i < self.entries.len()
            invariant
                i <= self.entries@.len(),
                self@.len() == self.entries@.len(),
                distinct_keys(self@),
                forall|k: int| 0 <= k < i ==> (#[trigger] self@[k]).0 != key@,
            decreases self.entries.len() - i,
        {
            if self.entries[i].key == *key {
                proof {
                    lemma_position(self@, key@, i as int);
                }
                return Some(i);
            }
            i = i + 1;
        }
        None
    }

    /// Whether `key` has an entry.
    pub fn contains_key(&self, key: &String) -> (r: bool)
        ensures
            r == has_key(self@, key@),
            distinct_keys(self@),
    {
        self.position(key).is_some()
    }

    /// The record stored under `key`.
    pub fn get(&self, key: &String) -> (r: Option<&V>)
        ensures
            distinct_keys(self@),
            match r {
                Some(v) => lookup(self@, key@) == Some(v@),
                None => lookup(self@, key@) is None,
            },
    {
        match self.position(key) {
            Some(i) => Some(&self.entries[i].value),
            None => None,
        }
    }

    /// The key at position `i`.
    pub fn key_at(&self, i: usize) -> (r: &String)
        requires
            i < self@.len(),
        ensures
            r@ == self@[i as int].0,
    {
        &self.entries[i].key
    }

    /// The record at position `i`.
    pub fn value_at(&self, i: usize) -> (r: &V)
        requires
            i < self@.len(),
        ensures
            r@ == self@[i as int].1,
    {
        &self.entries[i].value
    }

    /// Stores `value` under `key`: in place of the old record if the key has
    /// one, at the end otherwise.
    pub fn insert(&mut self, key: String, value: V)
        ensures
            final(self)@ == with_entry(old(self)@, key@, value@),
            distinct_keys(final(self)@),
            lookup(final(self)@, key@) == Some(value@),
            forall|other: Seq<char>|
                other != key@ ==> #[trigger] lookup(final(self)@, other) == lookup(
                    old(self)@,
                    other,
                ),
    {
        proof {
            use_type_invariant(&*self);
            lemma_with_entry(self@, key@, value@);
        }
        let ghost before = self@;
        let found = self.position(&key);
        let mut entries: Vec<Entry<V>> = Vec::new();
        std::mem::swap(&mut self.entries, &mut entries);
        match found {
            Some(i) => {
                entries.set(i, Entry { key, value });
            },
            None => {
                entries.push(Entry { key, value });
            },
        }
        proof {
            let after = Seq::new(
                entries@.len(),
                |i: int| (entries@[i].key@, entries@[i].value@),
            );
            assert(after =~= with_entry(before, key@, value@));
        }
        std::mem::swap(&mut self.entries, &mut entries);
    }

    /// Removes the entry of `key` and returns its record.
    pub fn remove(&mut self, key: &String) -> (r: Option<V>)
        ensures
            final(self)@ == without_key(old(self)@, key@),
            distinct_keys(final(self)@),
            lookup(final(self)@, key@) is None,
            forall|other: Seq<char>|
                other != key@ ==> #[trigger] lookup(final(self)@, other) == lookup(
                    old(self)@,
                    other,
                ),
            match r {
                Some(v) => lookup(old(self)@, key@) == Some(v@),
                None => lookup(old(self)@, key@) is None,
            },
    {
        proof {
            use_type_invariant(&*self);
            lemma_without_key(self@, key@);
        }
        let ghost before = self@;
        match self.position(key) {
            Some(i) => {
                let mut entries: Vec<Entry<V>> = Vec::new();
                std::mem::swap(&mut self.entries, &mut entries);
                let entry = entries.remove(i);
                proof {
                    let after = Seq::new(
                        entries@.len(),
                        |i: int| (entries@[i].key@, entries@[i].value@),
                    );
                    assert(after =~= before.remove(i as int));
                }
                std::mem::swap(&mut self.entries, &mut entries);
                Some(entry.value)
            },
            None => None,
        }
    }
}

} // verus!
