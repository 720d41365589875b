//! The set of keys that are down.

use crate::data::Key;
use vstd::prelude::*;

verus! {

/// A set of keys.
#[derive(Debug)]
pub struct KeySet {
    keys: Vec<Key>,
}

impl View for KeySet {
    type V = Set<Key>;

    closed spec fn view(&self) -> Set<Key> {
        self.keys@.to_set()
    }
}

impl Clone for KeySet {
    fn clone(&self) -> (r: Self)
        ensures
            r@ == self@,
    {
        KeySet { keys: self.keys() }
    }
}

impl KeySet {
    /// No key is listed twice.
    #[verifier::type_invariant]
    spec fn lists_each_key_once(self) -> bool {
        self.keys@.no_duplicates()
    }

    /// The empty set.
    pub fn new() -> (r: KeySet)
        ensures
            r@ == Set::<Key>::empty(),
    {
        let r = KeySet { keys: Vec::new() };
        assert(r@ =~= Set::<Key>::empty());
        r
    }

    /// Whether the key is in the set.
    pub fn contains(&self, key: Key) -> (r: bool)
        ensures
            r == self@.contains(key),
    {
        let mut i: usize = 0;
        while i < self.keys.len()
            invariant
                i <= self.keys.len(),
                forall|j: int| 0 <= j < i ==> self.keys[j] != key,
            decreases self.keys.len() - i,
        {
            if self.keys[i] == key {
                assert(self.keys@.contains(key));
                return true;
            }
            i += 1;
        }
        false
    }

    /// The number of keys in the set.
    pub fn len(&self) -> (r: usize)
        ensures
            r == self@.len(),
    {
        proof {
            use_type_invariant(self);
            self.keys@.unique_seq_to_set();
        }
        self.keys.len()
    }

    /// The keys in the set, each once, in no particular order.
    pub fn keys(&self) -> (r: Vec<Key>)
        ensures
            r@.no_duplicates(),
            r@.to_set() == self@,
    {
        proof {
            use_type_invariant(self);
        }
        let mut keys: Vec<Key> = Vec::new();
        let mut i: usize = 0;
        while i < self.keys.len()
            invariant
                i <= self.keys.len(),
                keys@ == self.keys@.take(i as int),
            decreases self.keys.len() - i,
        {
            keys.push(self.keys[i]);
            i += 1;
        }
        assert(keys@ =~= self.keys@);
        keys
    }

    /// Puts a key into the set. Returns whether it was new.
    pub fn insert(&mut self, key: Key) -> (r: bool)
        ensures
            r == !old(self)@.contains(key),
            final(self)@ == old(self)@.insert(key),
    {
        if self.contains(key) {
            assert(self@ =~= old(self)@.insert(key));
            return false;
        }
        proof {
            use_type_invariant(&*self);
        }
        let mut keys: Vec<Key> = Vec::new();
        std::mem::swap(&mut keys, &mut self.keys);
        let ghost before = keys@;
        assert(!before.contains(key));
        keys.push(key);
        assert(keys@.no_duplicates());
        self.keys = keys;
        proof {
            assert forall|k: Key| self@.contains(k) == old(self)@.insert(key).contains(k) by {
                if before.contains(k) {
                    let i = choose|i: int| 0 <= i < before.len() && before[i] == k;
                    assert(self.keys@[i] == k);
                }
                if k == key {
                    assert(self.keys@[before.len() as int] == k);
                }
            }
            assert(self@ =~= old(self)@.insert(key));
        }
        true
    }

    /// Takes a key out of the set. Returns whether it was there.
    pub fn remove(&mut self, key: Key) -> (r: bool)
        ensures
            r == old(self)@.contains(key),
            final(self)@ == old(self)@.remove(key),
    {
        proof {
            use_type_invariant(&*self);
        }
        let was_there = self.contains(key);
        let mut rest: Vec<Key> = Vec::new();
        let mut i: usize = 0;
        while i < self.keys.len()
            invariant
                i <= self.keys.len(),
                self.keys@ == old(self).keys@,
                self.keys@.no_duplicates(),
                rest@.no_duplicates(),
                forall|k: Key|
                    #![trigger rest@.contains(k)]
                    rest@.contains(k) <==> k != key && exists|j: int| 0 <= j < i && self.keys@[j] == k,
            decreases self.keys.len() - i,
        {
            let k = self.keys[i];
            let ghost before = rest@;
            if k != key {
                rest.push(k);
            }
            proof {
                if before.contains(k) {
                    let j = choose|j: int| 0 <= j < i && self.keys@[j] == k;
                    assert(self.keys@[i as int] == k);
                }
                assert(!before.contains(k));
                assert(rest@.no_duplicates());
                assert forall|x: Key|
                    #![trigger rest@.contains(x)]
                    rest@.contains(x) <==> x != key && exists|j: int| 0 <= j < i + 1 && self.keys@[j] == x by {
                    assert(before.contains(x) <==> x != key && exists|j: int|
                        0 <= j < i && self.keys@[j] == x);
                    if before.contains(x) {
                        let m = choose|m: int| 0 <= m < before.len() && before[m] == x;
                        assert(rest@[m] == x);
                    }
                    if x == k && k != key {
                        assert(rest@[before.len() as int] == x);
                        assert(self.keys@[i as int] == x);
                    }
                }
            }
            i += 1;
        }
        self.keys = rest;
        assert(self@ =~= old(self)@.remove(key));
        was_there
    }

    /// Empties the set.
    pub fn clear(&mut self)
        ensures
            final(self)@ == Set::<Key>::empty(),
    {
        self.keys = Vec::new();
        assert(self@ =~= Set::<Key>::empty());
    }
}

} // verus!
