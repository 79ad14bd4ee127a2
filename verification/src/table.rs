//! A map from texts to values, and a set of texts. A map keeps each key once.

use crate::text::{same, texts};
use vstd::prelude::*;

verus! {

/// A map whose keys are texts.
#[derive(Debug)]
pub struct Table<V> {
    keys: Vec<String>,
    values: Vec<V>,
}

impl<V> View for Table<V> {
    type V = Map<Seq<char>, V>;

    closed spec fn view(&self) -> Map<Seq<char>, V> {
        Map::new(
            |k: Seq<char>| self.order().contains(k),
            |k: Seq<char>| self.values@[self.order().index_of(k)],
        )
    }
}

impl<V> Table<V> {
    /// The keys, in the order in which they are stored.
    pub closed spec fn order(&self) -> Seq<Seq<char>> {
        texts(self.keys@)
    }

    /// Each key stands for one value, and no key stands twice.
    pub closed spec fn wf(&self) -> bool {
        &&& self.keys.len() == self.values.len()
        &&& self.order().no_duplicates()
    }

    /// The stored order holds each key of the map once.
    pub proof fn lemma_order(&self)
        requires
            self.wf(),
        ensures
            self.order().no_duplicates(),
            self.order().to_set() == self@.dom(),
            forall|k: Seq<char>| self@.contains_key(k) <==> self.order().contains(k),
            self@.dom().finite(),
            self@.len() == self.order().len(),
    {
        assert(self.order().to_set() =~= self@.dom());
        self.order().unique_seq_to_set();
    }

    proof fn lemma_value_at(&self, i: int)
        requires
            self.wf(),
            0 <= i < self.order().len(),
        ensures
            self@.contains_key(self.order()[i]),
            self@[self.order()[i]] == self.values@[i],
    {
        assert(self.order().contains(self.order()[i]));
        let j = self.order().index_of(self.order()[i]);
        assert(self.order()[j] == self.order()[i]);
    }

    /// An empty map.
    pub fn new() -> (r: Self)
        ensures
            r.wf(),
            r@ == Map::<Seq<char>, V>::empty(),
            r.order() == Seq::<Seq<char>>::empty(),
    {
        let r = Table { keys: Vec::new(), values: Vec::new() };
        assert(r.order() =~= Seq::empty());
        assert(r@ =~= Map::empty());
        r
    }

    fn position(&self, key: &str) -> (r: Option<usize>)
        requires
            self.wf(),
        ensures
            match r {
                Some(i) => i < self.order().len() && self.order()[i as int] == key@
                    && self.order().index_of(key@) == i,
                None => !self.order().contains(key@),
            },
    {
        let mut i: usize = 0;
        while i < self.keys.len()
            invariant
                self.wf(),
                i <= self.keys.len(),
                forall|j: int| 0 <= j < i ==> self.order()[j] != key@,
            decreases self.keys.len() - i,
        {
            assert(self.order()[i as int] == self.keys@[i as int]@);
            if same(self.keys[i].as_str(), key) {
                assert(self.order().contains(key@));
                return Some(i);
            }
            i += 1;
        }
        None
    }

    /// How many keys there are.
    pub fn len(&self) -> (r: usize)
        requires
            self.wf(),
        ensures
            r == self@.len(),
            r == self.order().len(),
    {
        proof {
            self.lemma_order();
        }
        self.keys.len()
    }

    /// Whether the map has `key`.
    pub fn contains_key(&self, key: &str) -> (r: bool)
        requires
            self.wf(),
        ensures
            r == self@.contains_key(key@),
    {
        self.position(key).is_some()
    }

    /// The value of `key`.
    pub fn get(&self, key: &str) -> (r: Option<&V>)
        requires
            self.wf(),
        ensures
            match r {
                Some(v) => self@.contains_key(key@) && *v == self@[key@],
                None => !self@.contains_key(key@),
            },
    {
        match self.position(key) {
            Some(i) => Some(&self.values[i]),
            None => None,
        }
    }

    /// The value of `key`, to be changed in place.
    pub fn get_mut(&mut self, key: &str) -> (r: Option<&mut V>)
        requires
            old(self).wf(),
        ensures
            final(self).wf(),
            final(self).order() == old(self).order(),
            match r {
                Some(v) => old(self)@.contains_key(key@) && *v == old(self)@[key@] && final(self)@
                    == old(self)@.insert(key@, *final(v)),
                None => !old(self)@.contains_key(key@) && final(self)@ == old(self)@,
            },
    {
        match self.position(key) {
            Some(i) => {
                let v = &mut self.values[i];
                Some(v)
            },
            None => None,
        }
    }

    /// Puts `value` under `key`, in place of what stood there.
    pub fn insert(&mut self, key: String, value: V)
        requires
            old(self).wf(),
        ensures
            final(self).wf(),
            final(self)@ == old(self)@.insert(key@, value),
            final(self).order() == (if old(self)@.contains_key(key@) {
                old(self).order()
            } else {
                old(self).order().push(key@)
            }),
    {
        match self.position(key.as_str()) {
            Some(i) => {
                self.values.set(i, value);
                assert(self.order() == old(self).order());
                assert(self@ =~= old(self)@.insert(key@, value));
            },
            None => {
                self.keys.push(key);
                self.values.push(value);
                assert(self.order() =~= old(self).order().push(key@));
                assert forall|k: Seq<char>| old(self).order().contains(k) implies
                    self.order().contains(k) && self.order().index_of(k)
                    == old(self).order().index_of(k) by {
                    let j = old(self).order().index_of(k);
                    assert(self.order()[j] == k);
                }
                assert(self.order()[old(self).order().len() as int] == key@);
                assert(self@ =~= old(self)@.insert(key@, value));
            },
        }
    }

    /// Takes `key` and its value out.
    pub fn remove(&mut self, key: &str) -> (r: Option<V>)
        requires
            old(self).wf(),
        ensures
            final(self).wf(),
            final(self)@ == old(self)@.remove(key@),
            match r {
                Some(v) => old(self)@.contains_key(key@) && v == old(self)@[key@],
                None => !old(self)@.contains_key(key@),
            },
    {
        match self.position(key) {
            Some(i) => {
                let ghost was = self.order();
                let _k = self.keys.remove(i);
                let v = self.values.remove(i);
                assert(self.order() =~= was.remove(i as int));
                assert forall|k: Seq<char>| was.contains(k) && k != key@ implies
                    self.order().contains(k) && self.values@[self.order().index_of(k)]
                    == old(self).values@[was.index_of(k)] by {
                    let j = was.index_of(k);
                    let at = if j < i { j } else { j - 1 };
                    assert(self.order()[at] == k);
                }
                assert forall|k: Seq<char>| self.order().contains(k) implies was.contains(k) && k
                    != key@ by {
                    let j = self.order().index_of(k);
                    let at = if j < i { j } else { j + 1 };
                    assert(was[at] == k);
                }
                assert(self@ =~= old(self)@.remove(key@));
                Some(v)
            },
            None => {
                assert(self@ =~= old(self)@.remove(key@));
                None
            },
        }
    }

    /// The keys, in the order in which they are stored.
    pub fn keys(&self) -> (r: Vec<String>)
        requires
            self.wf(),
        ensures
            texts(r@) == self.order(),
    {
        let mut out: Vec<String> = Vec::new();
        let mut i: usize = 0;
        while i < self.keys.len()
            invariant
                i <= self.keys.len(),
                texts(out@) == self.order().take(i as int),
            decreases self.keys.len() - i,
        {
            out.push(self.keys[i].clone());
            assert(texts(out@) =~= self.order().take(i as int).push(self.order()[i as int]));
            assert(texts(out@) =~= self.order().take(i + 1));
            i += 1;
        }
        assert(self.order().take(self.order().len() as int) =~= self.order());
        out
    }

    /// The key stored at position `i`.
    pub fn key_at(&self, i: usize) -> (r: &String)
        requires
            self.wf(),
            i < self.order().len(),
        ensures
            r@ == self.order()[i as int],
    {
        &self.keys[i]
    }

    /// The value stored at position `i`.
    pub fn value_at(&self, i: usize) -> (r: &V)
        requires
            self.wf(),
            i < self.order().len(),
        ensures
            self@.contains_key(self.order()[i as int]),
            *r == self@[self.order()[i as int]],
    {
        proof {
            self.lemma_value_at(i as int);
        }
        &self.values[i]
    }

    /// Puts `value` in place of the value stored at position `i`.
    pub fn set_at(&mut self, i: usize, value: V)
        requires
            old(self).wf(),
            i < old(self).order().len(),
        ensures
            final(self).wf(),
            final(self).order() == old(self).order(),
            final(self)@ == old(self)@.insert(old(self).order()[i as int], value),
    {
        proof {
            self.lemma_value_at(i as int);
        }
        let ghost key = self.order()[i as int];
        self.values.set(i, value);
        assert(self.order() == old(self).order());
        assert(self.order().index_of(key) == i) by {
            assert(self.order().contains(key));
            let j = self.order().index_of(key);
            assert(self.order()[j] == self.order()[i as int]);
        }
        assert(self@ =~= old(self)@.insert(key, value));
    }
}

/// A set of texts.
#[derive(Debug)]
pub struct TextSet {
    items: Vec<String>,
}

impl View for TextSet {
    type V = Set<Seq<char>>;

    closed spec fn view(&self) -> Set<Seq<char>> {
        texts(self.items@).to_set()
    }
}

impl TextSet {
    /// No text stands twice.
    pub closed spec fn wf(&self) -> bool {
        texts(self.items@).no_duplicates()
    }

    /// An empty set.
    pub fn new() -> (r: Self)
        ensures
            r.wf(),
            r@ == Set::<Seq<char>>::empty(),
    {
        let r = TextSet { items: Vec::new() };
        assert(texts(r.items@) =~= Seq::empty());
        assert(r@ =~= Set::empty());
        r
    }

    /// How many texts there are.
    pub fn len(&self) -> (r: usize)
        requires
            self.wf(),
        ensures
            self@.finite(),
            r == self@.len(),
    {
        proof {
            texts(self.items@).unique_seq_to_set();
        }
        self.items.len()
    }

    /// Whether `s` is in the set.
    pub fn contains(&self, s: &str) -> (r: bool)
        ensures
            r == self@.contains(s@),
    {
        let ghost all = texts(self.items@);
        let mut i: usize = 0;
        while i < self.items.len()
            invariant
                all == texts(self.items@),
                i <= self.items.len(),
                forall|j: int| 0 <= j < i ==> all[j] != s@,
            decreases self.items.len() - i,
        {
            assert(all[i as int] == self.items@[i as int]@);
            if same(self.items[i].as_str(), s) {
                assert(all.contains(s@));
                return true;
            }
            i += 1;
        }
        false
    }

    /// Puts `s` into the set.
    pub fn insert(&mut self, s: String)
        requires
            old(self).wf(),
        ensures
            final(self).wf(),
            final(self)@ == old(self)@.insert(s@),
    {
        if self.contains(s.as_str()) {
            assert(self@ =~= old(self)@.insert(s@));
        } else {
            let ghost was = texts(self.items@);
            self.items.push(s);
            let ghost all = texts(self.items@);
            assert(all =~= was.push(s@));
            assert forall|t: Seq<char>| all.contains(t) <==> (was.contains(t) || t == s@) by {
                if was.contains(t) {
                    assert(all[was.index_of(t)] == t);
                }
                assert(all[was.len() as int] == s@);
            }
            assert(self@ =~= old(self)@.insert(s@));
        }
    }
}

} // verus!
