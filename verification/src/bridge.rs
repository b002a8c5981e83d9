//! A keyed store for small values handed between callbacks.

use vstd::prelude::*;
use crate::text::str_eq;

verus! {

/// Why a value could not be had from the store.
#[derive(PartialEq, Eq, Structural, Clone, Copy)]
pub enum BridgeError {
    /// No value is stored under the key.
    Missing,
}

/// No name occurs twice.
pub open spec fn unique_keys<V>(entries: Seq<(String, V)>) -> bool {
    forall|i: int, j: int|
        0 <= i < j < entries.len() ==> #[trigger] entries[i].0@ != #[trigger] entries[j].0@
}

/// Values stored by name; a name holds at most one value.
pub struct NeoBridge<V> {
    entries: Vec<(String, V)>,
}

impl<V> NeoBridge<V> {
    /// No name is stored twice.
    #[verifier::type_invariant]
    spec fn keys_unique(self) -> bool {
        unique_keys(self.entries@)
    }

    /// The stored values by name.
    pub closed spec fn view(&self) -> Map<Seq<char>, V> {
        Map::new(
            |k: Seq<char>| exists|i: int| 0 <= i < self.entries@.len() && self.entries@[i].0@ == k,
            |k: Seq<char>|
                self.entries@[choose|i: int|
                    0 <= i < self.entries@.len() && self.entries@[i].0@ == k].1,
        )
    }

    /// An empty store.
    pub fn new() -> (r: NeoBridge<V>)
        ensures
            r@ == Map::<Seq<char>, V>::empty(),
    {
        let r = NeoBridge { entries: Vec::new() };
        assert(r@ =~= Map::<Seq<char>, V>::empty());
        r
    }

    fn find(&self, key: &str) -> (r: Option<usize>)
        ensures
            match r {
                Some(i) => i < self.entries@.len() && self.entries@[i as int].0@ == key@,
                None => forall|i: int|
                    0 <= i < self.entries@.len() ==> #[trigger] self.entries@[i].0@ != key@,
            },
    {
        let mut i: usize = 0;
        while i < self.entries.len()
            invariant
                i <= self.entries@.len(),
                forall|k: int| 0 <= k < i ==> #[trigger] self.entries@[k].0@ != key@,
            decreases self.entries.len() - i,
        {
            if str_eq(self.entries[i].0.as_str(), key) {
                return Some(i);
            }
            i += 1;
        }
        None
    }

    proof fn lemma_view_at(&self, i: int)
        requires
            unique_keys(self.entries@),
            0 <= i < self.entries@.len(),
        ensures
            self@.contains_key(self.entries@[i].0@),
            self@[self.entries@[i].0@] == self.entries@[i].1,
    {
        let k = self.entries@[i].0@;
        assert(self@.contains_key(k));
        let j = choose|j: int| 0 <= j < self.entries@.len() && self.entries@[j].0@ == k;
        if j != i {
            if j < i {
                assert(self.entries@[j].0@ != self.entries@[i].0@);
            } else {
                assert(self.entries@[i].0@ != self.entries@[j].0@);
            }
        }
    }

    /// Stores `value` under `key`, replacing what was stored there.
    pub fn insert(&mut self, key: &str, value: V)
        ensures
            final(self)@ == old(self)@.insert(key@, value),
    {
        proof {
            use_type_invariant(&*self);
        }
        let ghost before = *self;
        match self.find(key) {
            Some(i) => {
                let mut entries = Vec::new();
                core::mem::swap(&mut entries, &mut self.entries);
                let mut entries = entries;
                entries.set(i, (key.to_owned(), value));
                proof {
                    assert(unique_keys(entries@)) by {
                        assert forall|a: int, b: int| 0 <= a < b < entries@.len() implies #[trigger] entries@[a].0@
                            != #[trigger] entries@[b].0@ by {
                            if a != i && b != i {
                                assert(before.entries@[a] == entries@[a]);
                                assert(before.entries@[b] == entries@[b]);
                            } else if a == i {
                                assert(before.entries@[b] == entries@[b]);
                            } else {
                                assert(before.entries@[a] == entries@[a]);
                            }
                        }
                    }
                }
                self.entries = entries;
                proof {
                    assert forall|k: Seq<char>| #[trigger]
                        self@.contains_key(k) == before@.insert(key@, value).contains_key(k) by {
                        if self@.contains_key(k) {
                            let j = choose|j: int|
                                0 <= j < self.entries@.len() && self.entries@[j].0@ == k;
                            if j != i {
                                before.lemma_view_at(j);
                            }
                        }
                        if before@.contains_key(k) {
                            let j = choose|j: int|
                                0 <= j < before.entries@.len() && before.entries@[j].0@ == k;
                            assert(self.entries@[j].0@ == k);
                        }
                        if k == key@ {
                            assert(self.entries@[i as int].0@ == k);
                        }
                    }
                    assert forall|k: Seq<char>| #[trigger] self@.contains_key(k) implies self@[k]
                        == before@.insert(key@, value)[k] by {
                        let j = choose|j: int|
                            0 <= j < self.entries@.len() && self.entries@[j].0@ == k;
                        self.lemma_view_at(j);
                        if j != i {
                            before.lemma_view_at(j);
                        }
                    }
                    assert(self@ =~= before@.insert(key@, value));
                }
            },
            None => {
                let ghost n = before.entries@.len() as int;
                let mut entries = Vec::new();
                core::mem::swap(&mut entries, &mut self.entries);
                let mut entries = entries;
                entries.push((key.to_owned(), value));
                proof {
                    assert(unique_keys(entries@)) by {
                        assert forall|a: int, b: int| 0 <= a < b < entries@.len() implies #[trigger] entries@[a].0@
                            != #[trigger] entries@[b].0@ by {
                            if b < n {
                                assert(before.entries@[a] == entries@[a]);
                                assert(before.entries@[b] == entries@[b]);
                            } else {
                                assert(before.entries@[a] == entries@[a]);
                            }
                        }
                    }
                }
                self.entries = entries;
                proof {
                    assert forall|k: Seq<char>| #[trigger]
                        self@.contains_key(k) == before@.insert(key@, value).contains_key(k) by {
                        if self@.contains_key(k) {
                            let j = choose|j: int|
                                0 <= j < self.entries@.len() && self.entries@[j].0@ == k;
                            if j < n {
                                assert(before.entries@[j].0@ == k);
                            }
                        }
                        if before@.contains_key(k) {
                            let j = choose|j: int|
                                0 <= j < before.entries@.len() && before.entries@[j].0@ == k;
                            assert(self.entries@[j].0@ == k);
                        }
                        if k == key@ {
                            assert(self.entries@[n].0@ == k);
                        }
                    }
                    assert forall|k: Seq<char>| #[trigger] self@.contains_key(k) implies self@[k]
                        == before@.insert(key@, value)[k] by {
                        let j = choose|j: int|
                            0 <= j < self.entries@.len() && self.entries@[j].0@ == k;
                        self.lemma_view_at(j);
                        if j < n {
                            assert(before.entries@[j] == self.entries@[j]);
                            before.lemma_view_at(j);
                        }
                    }
                    assert(self@ =~= before@.insert(key@, value));
                }
            },
        }
    }

    /// The value stored under `key`.
    pub fn borrow(&self, key: &str) -> (r: Result<&V, BridgeError>)
        ensures
            match r {
                Ok(v) => self@.contains_key(key@) && *v == self@[key@],
                Err(e) => !self@.contains_key(key@) && e == BridgeError::Missing,
            },
    {
        match self.find(key) {
            Some(i) => {
                proof {
                    use_type_invariant(self);
                    self.lemma_view_at(i as int);
                }
                Ok(&self.entries[i].1)
            },
            None => {
                proof {
                    if self@.contains_key(key@) {
                        let j = choose|j: int|
                            0 <= j < self.entries@.len() && self.entries@[j].0@ == key@;
                        assert(self.entries@[j].0@ != key@);
                    }
                }
                Err(BridgeError::Missing)
            },
        }
    }

    /// Takes the value stored under `key` out of the store.
    pub fn consume(&mut self, key: &str) -> (r: Result<V, BridgeError>)
        ensures
            match r {
                Ok(v) => old(self)@.contains_key(key@) && v == old(self)@[key@] && final(self)@
                    == old(self)@.remove(key@),
                Err(e) => !old(self)@.contains_key(key@) && e == BridgeError::Missing
                    && final(self)@ == old(self)@,
            },
    {
        proof {
            use_type_invariant(&*self);
        }
        let ghost before = *self;
        match self.find(key) {
            Some(i) => {
                proof {
                    before.lemma_view_at(i as int);
                }
                let mut entries = Vec::new();
                core::mem::swap(&mut entries, &mut self.entries);
                let mut entries = entries;
                let (_, v) = entries.remove(i);
                proof {
                    let n = before.entries@.len() as int;
                    assert forall|j: int| 0 <= j < n - 1 implies #[trigger] entries@[j] == if j < i {
                        before.entries@[j]
                    } else {
                        before.entries@[j + 1]
                    } by {}
                    assert(unique_keys(entries@)) by {
                        assert forall|a: int, b: int| 0 <= a < b < entries@.len() implies #[trigger] entries@[a].0@
                            != #[trigger] entries@[b].0@ by {
                            let a0 = if a < i { a } else { a + 1 };
                            let b0 = if b < i { b } else { b + 1 };
                            assert(entries@[a] == before.entries@[a0]);
                            assert(entries@[b] == before.entries@[b0]);
                        }
                    }
                }
                self.entries = entries;
                proof {
                    assert forall|k: Seq<char>| #[trigger]
                        self@.contains_key(k) == before@.remove(key@).contains_key(k) by {
                        if self@.contains_key(k) {
                            let j = choose|j: int|
                                0 <= j < self.entries@.len() && self.entries@[j].0@ == k;
                            if j < i {
                                assert(before.entries@[j].0@ == k);
                                assert(before.entries@[j].0@ != before.entries@[i as int].0@);
                            } else {
                                assert(before.entries@[j + 1].0@ == k);
                                assert(before.entries@[i as int].0@ != before.entries@[j + 1].0@);
                            }
                        }
                        if before@.remove(key@).contains_key(k) {
                            let j = choose|j: int|
                                0 <= j < before.entries@.len() && before.entries@[j].0@ == k;
                            if j < i {
                                assert(self.entries@[j].0@ == k);
                            } else if j > i {
                                assert(self.entries@[j - 1].0@ == k);
                            }
                        }
                    }
                    assert forall|k: Seq<char>| #[trigger] self@.contains_key(k) implies self@[k]
                        == before@.remove(key@)[k] by {
                        let j = choose|j: int|
                            0 <= j < self.entries@.len() && self.entries@[j].0@ == k;
                        self.lemma_view_at(j);
                        if j < i {
                            before.lemma_view_at(j);
                        } else {
                            before.lemma_view_at(j + 1);
                        }
                    }
                    assert(self@ =~= before@.remove(key@));
                }
                Ok(v)
            },
            None => {
                proof {
                    if before@.contains_key(key@) {
                        let j = choose|j: int|
                            0 <= j < before.entries@.len() && before.entries@[j].0@ == key@;
                        assert(before.entries@[j].0@ != key@);
                    }
                }
                Err(BridgeError::Missing)
            },
        }
    }
}

/// A value read back under the name it was stored with is the value
/// stored, and storing under one name leaves every other name as it was.
pub proof fn law_read_after_write<V>(m: Map<Seq<char>, V>, key: Seq<char>, other: Seq<char>, value: V)
    requires
        other != key,
    ensures
        m.insert(key, value).contains_key(key),
        m.insert(key, value)[key] == value,
        m.insert(key, value).contains_key(other) == m.contains_key(other),
        m.contains_key(other) ==> m.insert(key, value)[other] == m[other],
{
}

/// Once consumed, a name holds nothing until it is stored again.
pub proof fn law_consume_empties<V>(m: Map<Seq<char>, V>, key: Seq<char>)
    ensures
        !m.remove(key).contains_key(key),
{
}

} // verus!
