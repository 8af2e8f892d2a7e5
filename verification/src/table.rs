//! A small keyed store: string keys, each bound to one value, kept in the
//! order in which the keys first arrived.

use vstd::prelude::*;
use crate::text::str_eq;

verus! {

/// A store of values under distinct string keys.
pub struct Table<V> {
    entries: Vec<(String, V)>,
}

/// Runs `f` on the value of the entry at position `i`; the key stays.
fn apply_at<V, F, R>(entries: &mut Vec<(String, V)>, i: usize, f: F) -> (r: R) where
    F: FnOnce(&mut V) -> R,

    requires
        i < old(entries)@.len(),
        forall|v: &mut V| *v == old(entries)@[i as int].1 ==> #[trigger] f.requires((v,)),
    ensures
        final(entries)@.len() == old(entries)@.len(),
        forall|k: int|
            0 <= k < old(entries)@.len() && k != i ==> final(entries)@[k] == old(entries)@[k],
        final(entries)@[i as int].0 == old(entries)@[i as int].0,
        exists|v: &mut V|
            *v == old(entries)@[i as int].1 && #[trigger] f.ensures((v,), r) && *final(v) == final(entries)@[i as int].1,
{
    let entry = &mut entries[i];
    f(&mut entry.1)
}

impl<V> Table<V> {
    /// The keys, in the order in which they first arrived.
    pub closed spec fn keys(&self) -> Seq<Seq<char>> {
        Seq::new(self.entries@.len(), |i: int| self.entries@[i].0@)
    }

    /// The values, each at the position of its key.
    pub closed spec fn values(&self) -> Seq<V> {
        Seq::new(self.entries@.len(), |i: int| self.entries@[i].1)
    }

    /// No key occurs twice.
    pub closed spec fn wf(&self) -> bool {
        forall|i: int, j: int|
            0 <= i < j < self.entries@.len() ==> self.entries@[i].0@ != self.entries@[j].0@
    }

    /// The position of `key` among the keys, where it is one of them.
    pub open spec fn slot(&self, key: Seq<char>) -> int {
        choose|i: int| 0 <= i < self.keys().len() && self.keys()[i] == key
    }

    /// The store as a map from key to value.
    pub open spec fn view(&self) -> Map<Seq<char>, V> {
        Map::new(|k: Seq<char>| self.keys().contains(k), |k: Seq<char>| self.values()[self.slot(k)])
    }

    /// How keys, values and the map hang together in a well-formed store.
    pub proof fn lemma_layout(&self)
        requires
            self.wf(),
        ensures
            self.keys().len() == self.values().len(),
            self.keys().no_duplicates(),
            forall|i: int|
                0 <= i < self.keys().len() ==> #[trigger] self@.contains_key(self.keys()[i])
                    && self@[self.keys()[i]] == self.values()[i],
            forall|k: Seq<char>|
                self@.contains_key(k) ==> 0 <= self.slot(k) < self.keys().len() && self.keys()[self.slot(
                    k,
                )] == k,
    {
        assert forall|i: int| 0 <= i < self.keys().len() implies #[trigger] self@.contains_key(
            self.keys()[i],
        ) && self@[self.keys()[i]] == self.values()[i] by {
            let k = self.keys()[i];
            assert(self.keys().contains(k));
            let j = self.slot(k);
            assert(0 <= j < self.keys().len() && self.keys()[j] == k);
            assert(i == j);
        }
    }

    /// An empty store.
    pub fn new() -> (table: Self)
        ensures
            table.wf(),
            table@ == Map::<Seq<char>, V>::empty(),
            table.keys() == Seq::<Seq<char>>::empty(),
    {
        let table = Table { entries: Vec::new() };
        assert(table.keys() =~= Seq::<Seq<char>>::empty());
        assert(table@ =~= Map::<Seq<char>, V>::empty());
        table
    }

    /// The number of keys.
    pub fn len(&self) -> (n: usize)
        ensures
            n == self.keys().len(),
    {
        self.entries.len()
    }

    /// The position of `key`, where the store holds it.
    pub fn position(&self, key: &str) -> (found: Option<usize>)
        requires
            self.wf(),
        ensures
            match found {
                Some(i) => i < self.keys().len() && self.keys()[i as int] == key@
                    && self@.contains_key(key@) && self@[key@] == self.values()[i as int],
                None => !self@.contains_key(key@),
            },
    {
        let mut i: usize = 0;
        while i < self.entries.len()
            invariant
                self.wf(),
                i <= self.entries.len(),
                forall|k: int| 0 <= k < i ==> self.entries@[k].0@ != key@,
            decreases self.entries.len() - i,
        {
            if str_eq(self.entries[i].0.as_str(), key) {
                proof {
                    self.lemma_layout();
                    assert(self.keys()[i as int] == key@);
                }
                return Some(i);
            }
            i += 1;
        }
        assert(!self.keys().contains(key@));
        None
    }

    /// The value at a position.
    pub fn value_at(&self, i: usize) -> (value: &V)
        requires
            i < self.keys().len(),
        ensures
            *value == self.values()[i as int],
    {
        &self.entries[i].1
    }

    /// The value bound to `key`.
    pub fn get(&self, key: &str) -> (value: Option<&V>)
        requires
            self.wf(),
        ensures
            match value {
                Some(v) => self@.contains_key(key@) && self@[key@] == *v,
                None => !self@.contains_key(key@),
            },
    {
        match self.position(key) {
            Some(i) => Some(&self.entries[i].1),
            None => None,
        }
    }

    /// Binds `key` to `value`. A key that the store already holds keeps its
    /// place and loses its old value; a new key goes to the end.
    pub fn insert(&mut self, key: String, value: V)
        requires
            old(self).wf(),
        ensures
            final(self).wf(),
            final(self)@ == old(self)@.insert(key@, value),
            old(self)@.contains_key(key@) ==> final(self).keys() == old(self).keys()
                && final(self).values() == old(self).values().update(old(self).slot(key@), value),
            !old(self)@.contains_key(key@) ==> final(self).keys() == old(self).keys().push(key@)
                && final(self).values() == old(self).values().push(value),
    {
        proof {
            self.lemma_layout();
        }
        match self.position(key.as_str()) {
            Some(i) => {
                self.entries.set(i, (key, value));
                assert(self.keys() =~= old(self).keys());
                assert(self.values() =~= old(self).values().update(i as int, value));
                assert(i == old(self).slot(key@));
            },
            None => {
                self.entries.push((key, value));
                assert(self.keys() =~= old(self).keys().push(key@));
                assert(self.values() =~= old(self).values().push(value));
                assert(!old(self).keys().contains(key@));
                assert forall|a: int, b: int| 0 <= a < b < self.entries@.len() implies self.entries@[a].0@
                    != self.entries@[b].0@ by {
                    if b == self.entries@.len() - 1 {
                        assert(old(self).keys()[a] == self.entries@[a].0@);
                    }
                }
            },
        }
        proof {
            self.lemma_layout();
            assert forall|k: Seq<char>| #[trigger] self@.contains_key(k) <==> old(self)@.insert(
                key@,
                value,
            ).contains_key(k) by {
                if self@.contains_key(k) {
                    let j = self.slot(k);
                    if k != key@ {
                        assert(old(self).keys()[j] == k);
                    }
                }
                if old(self)@.contains_key(k) {
                    let j = old(self).slot(k);
                    assert(self.keys()[j] == k);
                }
                if k == key@ {
                    if old(self)@.contains_key(k) {
                        assert(self.keys()[old(self).slot(k)] == k);
                    } else {
                        assert(self.keys()[self.keys().len() - 1] == k);
                    }
                }
            }
            assert forall|k: Seq<char>| #[trigger] self@.contains_key(k) implies self@[k] == old(self)@.insert(key@, value)[k] by {
                let j = self.slot(k);
                if k != key@ {
                    assert(old(self).keys()[j] == k);
                    assert(old(self)@.contains_key(old(self).keys()[j]));
                    assert(old(self)@[old(self).keys()[j]] == old(self).values()[j]);
                    assert(self@.contains_key(self.keys()[j]));
                }
            }
            assert(self@ =~= old(self)@.insert(key@, value));
        }
    }

    /// Runs `f` on the value bound to `key`, which it may change in place.
    /// Without the key nothing runs and nothing changes.
    pub fn update<F, R>(&mut self, key: &str, f: F) -> (outcome: Option<R>) where
        F: FnOnce(&mut V) -> R,

        requires
            old(self).wf(),
            old(self)@.contains_key(key@) ==> forall|v: &mut V|
                *v == old(self)@[key@] ==> #[trigger] f.requires((v,)),
        ensures
            final(self).wf(),
            final(self).keys() == old(self).keys(),
            outcome is None ==> !old(self)@.contains_key(key@) && final(self)@ == old(self)@,
            outcome is Some ==> old(self)@.contains_key(key@),
            outcome is Some ==> exists|v: &mut V|
                *v == old(self)@[key@] && #[trigger] f.ensures((v,), outcome->Some_0) && final(self)@
                    == old(self)@.insert(key@, *final(v)),
    {
        match self.position(key) {
            Some(i) => {
                let r = apply_at(&mut self.entries, i, f);
                proof {
                    assert(self.keys() =~= old(self).keys());
                    assert(self.values() =~= old(self).values().update(
                        i as int,
                        self.entries@[i as int].1,
                    ));
                    old(self).lemma_layout();
                    self.lemma_layout();
                    assert forall|k: Seq<char>| #[trigger] self@.contains_key(k) implies self@[k]
                        == old(self)@.insert(key@, self.entries@[i as int].1)[k] by {
                        let j = self.slot(k);
                        assert(old(self)@.contains_key(old(self).keys()[j]));
                        assert(self@.contains_key(self.keys()[j]));
                    }
                    assert(self@ =~= old(self)@.insert(key@, self.entries@[i as int].1));
                    let w = choose|v: &mut V|
                        *v == old(self).entries@[i as int].1 && #[trigger] f.ensures((v,), r)
                            && *final(v) == self.entries@[i as int].1;
                    assert(*w == old(self)@[key@] && f.ensures((w,), r) && self@ == old(self)@.insert(
                        key@,
                        *final(w),
                    ));
                    assert(f.ensures((w,), Some(r)->Some_0));
                }
                Some(r)
            },
            None => None,
        }
    }

    /// Takes `key` and its value out of the store.
    pub fn remove(&mut self, key: &str) -> (value: Option<V>)
        requires
            old(self).wf(),
        ensures
            final(self).wf(),
            final(self)@ == old(self)@.remove(key@),
            match value {
                Some(v) => old(self)@.contains_key(key@) && old(self)@[key@] == v,
                None => !old(self)@.contains_key(key@),
            },
            old(self)@.contains_key(key@) ==> final(self).keys() == old(self).keys().remove(
                old(self).slot(key@),
            ) && final(self).values() == old(self).values().remove(old(self).slot(key@)),
            !old(self)@.contains_key(key@) ==> final(self).keys() == old(self).keys()
                && final(self).values() == old(self).values(),
    {
        proof {
            self.lemma_layout();
        }
        match self.position(key) {
            Some(i) => {
                let entry = self.entries.remove(i);
                proof {
                    assert(i == old(self).slot(key@));
                    assert(self.keys() =~= old(self).keys().remove(i as int));
                    assert(self.values() =~= old(self).values().remove(i as int));
                    assert forall|a: int, b: int| 0 <= a < b < self.entries@.len() implies self.entries@[a].0@
                        != self.entries@[b].0@ by {
                        let a0 = if a < i { a } else { a + 1 };
                        let b0 = if b < i { b } else { b + 1 };
                        assert(self.entries@[a] == old(self).entries@[a0]);
                        assert(self.entries@[b] == old(self).entries@[b0]);
                    }
                    self.lemma_layout();
                    assert forall|k: Seq<char>| #[trigger] self@.contains_key(k) <==> old(self)@.remove(
                        key@,
                    ).contains_key(k) by {
                        if self@.contains_key(k) {
                            let j = self.slot(k);
                            let j0 = if j < i { j } else { j + 1 };
                            assert(old(self).keys()[j0] == k);
                            assert(old(self)@.contains_key(old(self).keys()[j0]));
                        }
                        if old(self)@.contains_key(k) && k != key@ {
                            let j0 = old(self).slot(k);
                            let j = if j0 < i { j0 } else { j0 - 1 };
                            assert(self.keys()[j] == k);
                        }
                    }
                    assert forall|k: Seq<char>| #[trigger] self@.contains_key(k) implies self@[k]
                        == old(self)@.remove(key@)[k] by {
                        let j = self.slot(k);
                        let j0 = if j < i { j } else { j + 1 };
                        assert(old(self).keys()[j0] == k);
                        assert(old(self)@.contains_key(old(self).keys()[j0]));
                        assert(old(self)@[old(self).keys()[j0]] == old(self).values()[j0]);
                        assert(self@.contains_key(self.keys()[j]));
                    }
                    assert(self@ =~= old(self)@.remove(key@));
                }
                Some(entry.1)
            },
            None => {
                assert(self@ =~= old(self)@.remove(key@));
                None
            },
        }
    }
}

} // verus!
