//! A store of items keyed by a string: inserting under an existing key
//! replaces the item held there.
use vstd::prelude::*;

verus! {

/// An item that carries its own string key.
pub trait Keyed {
    spec fn key(&self) -> Seq<char>;

    fn key_str(&self) -> (r: &str)
        ensures
            r@ == self.key();
}

/// Items keyed by string, at most one per key.
pub struct KeyedStore<T: Keyed> {
    items: Vec<T>,
}

/// What a keyed store reads back: after `insert(t)`, `get(t.key())` gives
/// `t` and every other key reads as before; after `remove(k)`, `k` is
/// absent.  Stated over the store's view, which `insert`, `get` and `remove`
/// speak of.
pub proof fn law_read_after_write<T: Keyed>(before: Map<Seq<char>, T>, t: T, k: Seq<char>)
    ensures
        before.insert(t.key(), t).contains_key(t.key()),
        before.insert(t.key(), t)[t.key()] == t,
        k != t.key() ==> before.insert(t.key(), t).contains_key(k) == before.contains_key(k),
        k != t.key() && before.contains_key(k) ==> before.insert(t.key(), t)[k] == before[k],
        !before.remove(k).contains_key(k),
{
}

/// The keys of a sequence of items.
pub open spec fn keys_of<T: Keyed>(s: Seq<T>) -> Seq<Seq<char>> {
    s.map_values(|t: T| t.key())
}

impl<T: Keyed> KeyedStore<T> {
    #[verifier::type_invariant]
    spec fn keys_distinct(self) -> bool {
        forall|i: int, j: int| 0 <= i < j < self.items@.len() ==> self.items@[i].key() != self.items@[j].key()
    }

    /// The items held, in insertion order.
    pub closed spec fn items(self) -> Seq<T> {
        self.items@
    }

    /// The items by key.
    pub open spec fn view(self) -> Map<Seq<char>, T> {
        Map::new(
            |k: Seq<char>| exists|i: int| 0 <= i < self.items().len() && self.items()[i].key() == k,
            |k: Seq<char>| self.items()[choose|i: int| 0 <= i < self.items().len() && self.items()[i].key() == k],
        )
    }

    proof fn lemma_item_at(self, i: int)
        requires
            self.keys_distinct(),
            0 <= i < self.items().len(),
        ensures
            self.view().contains_key(self.items()[i].key()),
            self.view()[self.items()[i].key()] == self.items()[i],
    {
        let k = self.items()[i].key();
        let j = choose|j: int| 0 <= j < self.items().len() && self.items()[j].key() == k;
        if j != i {
            if j < i {
                assert(self.items@[j].key() != self.items@[i].key());
            } else {
                assert(self.items@[i].key() != self.items@[j].key());
            }
        }
    }

    /// A store holds finitely many keys.
    pub proof fn lemma_view_finite(self)
        ensures
            self.view().dom().finite(),
    {
        let ks = keys_of(self.items());
        vstd::seq_lib::seq_to_set_is_finite(ks);
        assert(self.view().dom() =~= ks.to_set()) by {
            assert forall|k: Seq<char>| self.view().dom().contains(k) <==> ks.to_set().contains(k) by {
                if self.view().dom().contains(k) {
                    let i = choose|i: int| 0 <= i < self.items().len() && self.items()[i].key() == k;
                    assert(ks[i] == k);
                }
                if ks.to_set().contains(k) {
                    let i = choose|i: int| 0 <= i < ks.len() && ks[i] == k;
                    assert(self.items()[i].key() == k);
                }
            }
        }
    }

    /// The number of keys equals the number of items.
    proof fn lemma_len(self)
        requires
            self.keys_distinct(),
        ensures
            self.view().dom().finite(),
            self.view().dom().len() == self.items().len(),
    {
        let ks = keys_of(self.items());
        assert(ks.no_duplicates());
        ks.unique_seq_to_set();
        assert(self.view().dom() =~= ks.to_set()) by {
            assert forall|k: Seq<char>| self.view().dom().contains(k) <==> ks.to_set().contains(k) by {
                if self.view().dom().contains(k) {
                    let i = choose|i: int| 0 <= i < self.items().len() && self.items()[i].key() == k;
                    assert(ks[i] == k);
                }
                if ks.to_set().contains(k) {
                    let i = choose|i: int| 0 <= i < ks.len() && ks[i] == k;
                    assert(self.items()[i].key() == k);
                }
            }
        }
    }

    pub fn new() -> (s: Self)
        ensures
            s.view() == Map::<Seq<char>, T>::empty(),
            s.items().len() == 0,
    {
        let s = KeyedStore { items: Vec::new() };
        assert(s.view() =~= Map::<Seq<char>, T>::empty());
        s
    }

    fn position(&self, key: &str) -> (r: Option<usize>)
        ensures
            r matches Some(i) ==> i < self.items().len() && self.items()[i as int].key() == key@,
            r is None ==> !self.view().contains_key(key@),
    {
        let mut i: usize = 0;
        while i < self.items.len()
            invariant
                i <= self.items@.len(),
                forall|k: int| 0 <= k < i ==> self.items@[k].key() != key@,
            decreases self.items.len() - i,
        {
            if crate::text::str_eq(self.items[i].key_str(), key) {
                return Some(i);
            }
            i = i + 1;
        }
        None
    }

    /// Whether an item is held under `key`.
    pub fn contains_key(&self, key: &str) -> (r: bool)
        ensures
            r == self.view().contains_key(key@),
    {
        self.position(key).is_some()
    }

    /// Holds `t` under its key, replacing the item held there.
    pub fn insert(&mut self, t: T)
        ensures
            final(self).view() == old(self).view().insert(t.key(), t),
    {
        proof { use_type_invariant(&*self); }
        let ghost old_self = *self;
        let ghost tv = t;
        let ghost mut p: int = 0;
        match self.position(t.key_str()) {
            Some(i) => {
                let mut items: Vec<T> = Vec::new();
                std::mem::swap(&mut items, &mut self.items);
                items.set(i, t);
                proof {
                    p = i as int;
                    assert forall|a: int, b: int| 0 <= a < b < items@.len() implies items@[a].key() != items@[b].key() by {
                        if a == i {
                            assert(old_self.items@[a].key() == tv.key());
                        }
                        if b == i {
                            assert(old_self.items@[b].key() == tv.key());
                        }
                    }
                }
                self.items = items;
            },
            None => {
                let mut items: Vec<T> = Vec::new();
                std::mem::swap(&mut items, &mut self.items);
                items.push(t);
                proof {
                    p = old_self.items@.len() as int;
                    assert forall|a: int, b: int| 0 <= a < b < items@.len() implies items@[a].key() != items@[b].key() by {
                        if b == p {
                            assert(old_self.view().contains_key(old_self.items@[a].key()));
                        }
                    }
                }
                self.items = items;
            },
        }
        proof {
            let m = old_self.view().insert(tv.key(), tv);
            self.lemma_item_at(p);
            assert forall|k: Seq<char>| #[trigger] self.view().contains_key(k) == m.contains_key(k) by {
                if self.view().contains_key(k) {
                    let a = choose|a: int| 0 <= a < self.items().len() && self.items()[a].key() == k;
                    if a != p {
                        assert(old_self.items()[a].key() == k);
                    }
                }
                if old_self.view().contains_key(k) {
                    let a = choose|a: int| 0 <= a < old_self.items().len() && old_self.items()[a].key() == k;
                    if a != p {
                        assert(self.items()[a].key() == k);
                    }
                }
            }
            assert forall|k: Seq<char>| self.view().contains_key(k) implies #[trigger] self.view()[k] == m[k] by {
                if k != tv.key() {
                    let a = choose|a: int| 0 <= a < old_self.items().len() && old_self.items()[a].key() == k;
                    old_self.lemma_item_at(a);
                    assert(self.items()[a] == old_self.items()[a]);
                    self.lemma_item_at(a);
                }
            }
            assert(self.view() =~= m);
        }
    }

    /// Removes and returns the item held under `key`.
    pub fn remove(&mut self, key: &str) -> (r: Option<T>)
        ensures
            r is Some == old(self).view().contains_key(key@),
            r matches Some(t) ==> t == old(self).view()[key@],
            final(self).view() == old(self).view().remove(key@),
    {
        proof { use_type_invariant(&*self); }
        let ghost old_self = *self;
        match self.position(key) {
            Some(i) => {
                let mut items: Vec<T> = Vec::new();
                std::mem::swap(&mut items, &mut self.items);
                let t = items.remove(i);
                proof {
                    let o = old_self.items@;
                    assert forall|a: int, b: int| 0 <= a < b < items@.len() implies items@[a].key() != items@[b].key() by {
                        if a < i && b >= i {
                            assert(items@[b] == o[b + 1]);
                        } else if a >= i {
                            assert(items@[a] == o[a + 1] && items@[b] == o[b + 1]);
                        }
                    }
                }
                self.items = items;
                proof {
                    let o = old_self.items();
                    old_self.lemma_item_at(i as int);
                    let m = old_self.view().remove(key@);
                    assert forall|k: Seq<char>| #[trigger] self.view().contains_key(k) == m.contains_key(k) by {
                        if self.view().contains_key(k) {
                            let a = choose|a: int| 0 <= a < self.items().len() && self.items()[a].key() == k;
                            if a < i {
                                assert(o[a].key() == k);
                            } else {
                                assert(o[a + 1].key() == k);
                            }
                        }
                        if m.contains_key(k) {
                            let a = choose|a: int| 0 <= a < o.len() && o[a].key() == k;
                            if a < i {
                                assert(self.items()[a].key() == k);
                            } else {
                                assert(self.items()[a - 1].key() == k);
                            }
                        }
                    }
                    assert forall|k: Seq<char>| self.view().contains_key(k) implies #[trigger] self.view()[k] == m[k] by {
                        let a = choose|a: int| 0 <= a < o.len() && o[a].key() == k;
                        old_self.lemma_item_at(a);
                        if a < i {
                            self.lemma_item_at(a);
                        } else {
                            self.lemma_item_at(a - 1);
                        }
                    }
                    assert(self.view() =~= m);
                }
                Some(t)
            },
            None => {
                assert(old_self.view().remove(key@) =~= old_self.view());
                None
            },
        }
    }

    /// The item held under `key`.
    pub fn get(&self, key: &str) -> (r: Option<&T>)
        ensures
            r is Some == self.view().contains_key(key@),
            r matches Some(t) ==> *t == self.view()[key@],
    {
        match self.position(key) {
            Some(i) => {
                proof { use_type_invariant(self); self.lemma_item_at(i as int); }
                Some(&self.items[i])
            },
            None => None,
        }
    }

    /// Number of items held.
    pub fn len(&self) -> (r: usize)
        ensures
            r == self.view().dom().len(),
    {
        proof { use_type_invariant(self); self.lemma_len(); }
        self.items.len()
    }

    /// Every item held, each once.
    pub fn values(&self) -> (r: Vec<&T>)
        ensures
            r@.len() == self.view().dom().len(),
            forall|i: int| 0 <= i < r@.len() ==> self.view().contains_key(r@[i].key()) && self.view()[r@[i].key()] == *r@[i],
            forall|k: Seq<char>| #[trigger] self.view().contains_key(k) ==> exists|i: int| 0 <= i < r@.len() && r@[i].key() == k,
            forall|i: int, j: int| 0 <= i < j < r@.len() ==> r@[i].key() != r@[j].key(),
    {
        proof { use_type_invariant(self); self.lemma_len(); }
        let mut r: Vec<&T> = Vec::new();
        let mut i: usize = 0;
        while i < self.items.len()
            invariant
                i <= self.items@.len(),
                r@.len() == i,
                forall|k: int| 0 <= k < i ==> *r@[k] == self.items@[k],
            decreases self.items.len() - i,
        {
            r.push(&self.items[i]);
            i = i + 1;
        }
        proof {
            assert forall|a: int| 0 <= a < r@.len() implies self.view().contains_key(r@[a].key()) && self.view()[r@[a].key()] == *r@[a] by {
                self.lemma_item_at(a);
            }
            assert forall|k: Seq<char>| #[trigger] self.view().contains_key(k) implies exists|a: int| 0 <= a < r@.len() && r@[a].key() == k by {
                let a = choose|a: int| 0 <= a < self.items().len() && self.items()[a].key() == k;
                assert(r@[a].key() == k);
            }
        }
        r
    }
}

} // verus!
