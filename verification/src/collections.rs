//! Insertion-ordered collections keyed by identifiers.
//!
//! A session walks some of its collections to produce effects, and the order
//! of the walk is part of what it promises. These collections therefore keep
//! their items in the order in which they were first added.

use vstd::prelude::*;

verus! {

/// An identifier that is determined by an integer key.
pub trait Keyed: Copy + Sized {
    spec fn key(self) -> u64;

    fn to_key(self) -> (key: u64)
        ensures
            key == self.key(),
    ;

    proof fn lemma_key_injective(a: Self, b: Self)
        requires
            a.key() == b.key(),
        ensures
            a == b,
    ;
}

/// `items` with `x` added at the end, unless it is there already.
pub open spec fn with_item<T>(items: Seq<T>, x: T) -> Seq<T> {
    if items.contains(x) {
        items
    } else {
        items.push(x)
    }
}

/// `items` without `x`, the others in their old order.
pub open spec fn without_item<T>(items: Seq<T>, x: T) -> Seq<T> {
    if items.contains(x) {
        items.remove(items.index_of(x))
    } else {
        items
    }
}

/// In a sequence without duplicates an item stands at one index only.
pub proof fn lemma_index_of_unique<T>(items: Seq<T>, i: int)
    requires
        items.no_duplicates(),
        0 <= i < items.len(),
    ensures
        items.index_of(items[i]) == i,
        items.contains(items[i]),
{
    let j = items.index_of(items[i]);
    assert(0 <= j < items.len() && items[j] == items[i]);
}

/// A set of identifiers that remembers the order in which they were added.
pub struct OrderedSet<T> {
    items: Vec<T>,
}

impl<T: Keyed> OrderedSet<T> {
    /// The members, in the order in which they were added.
    pub closed spec fn items(&self) -> Seq<T> {
        self.items@
    }

    /// No member occurs twice.
    pub open spec fn wf(&self) -> bool {
        self.items().no_duplicates()
    }

    pub fn new() -> (set: Self)
        ensures
            set.wf(),
            set.items() == Seq::<T>::empty(),
    {
        OrderedSet { items: Vec::new() }
    }

    pub fn len(&self) -> (n: usize)
        ensures
            n == self.items().len(),
    {
        self.items.len()
    }

    /// The member at a position of the order.
    pub fn at(&self, i: usize) -> (item: T)
        requires
            i < self.items().len(),
        ensures
            item == self.items()[i as int],
    {
        self.items[i]
    }

    fn find(&self, x: T) -> (found: Option<usize>)
        ensures
            match found {
                Some(i) => i < self.items().len() && self.items()[i as int] == x,
                None => !self.items().contains(x),
            },
    {
        let key = x.to_key();
        let mut i: usize = 0;
        while i < self.items.len()
            invariant
                i <= self.items@.len(),
                key == x.key(),
                forall|j: int| 0 <= j < i ==> self.items@[j] != x,
            decreases self.items@.len() - i,
        {
            if self.items[i].to_key() == key {
                proof {
                    T::lemma_key_injective(self.items@[i as int], x);
                }
                return Some(i);
            }
            i += 1;
        }
        None
    }

    pub fn contains(&self, x: T) -> (present: bool)
        ensures
            present == self.items().contains(x),
    {
        self.find(x).is_some()
    }

    /// Adds `x` behind the members, unless it is one already.
    pub fn insert(&mut self, x: T)
        requires
            old(self).wf(),
        ensures
            final(self).wf(),
            final(self).items() == with_item(old(self).items(), x),
    {
        if self.find(x).is_none() {
            self.items.push(x);
        }
    }

    /// Removes `x` if it is a member, and says whether it was one; the
    /// others keep their order.
    pub fn remove(&mut self, x: T) -> (removed: bool)
        requires
            old(self).wf(),
        ensures
            final(self).wf(),
            removed == old(self).items().contains(x),
            final(self).items() == without_item(old(self).items(), x),
    {
        match self.find(x) {
            Some(i) => {
                proof {
                    lemma_index_of_unique(self.items@, i as int);
                }
                self.items.remove(i);
                true
            },
            None => false,
        }
    }
}

/// A table from identifiers to values that remembers the order in which the
/// identifiers were first filed.
pub struct Table<K, V> {
    keys: Vec<K>,
    values: Vec<V>,
}

impl<K: Keyed, V: Copy> Table<K, V> {
    /// The identifiers on file, in the order in which they were first filed.
    pub closed spec fn order(&self) -> Seq<K> {
        self.keys@
    }

    /// What is on file under each identifier.
    pub closed spec fn map(&self) -> Map<K, V> {
        Map::new(|k: K| self.keys@.contains(k), |k: K| self.values@[self.keys@.index_of(k)])
    }

    /// Every identifier is filed once, with one value.
    pub closed spec fn wf(&self) -> bool {
        &&& self.keys@.no_duplicates()
        &&& self.keys@.len() == self.values@.len()
    }

    /// The order lists exactly the identifiers on file, each once.
    pub proof fn lemma_order(&self)
        requires
            self.wf(),
        ensures
            self.order().no_duplicates(),
            forall|k: K| self.order().contains(k) <==> #[trigger] self.map().contains_key(k),
    {
    }

    pub fn new() -> (table: Self)
        ensures
            table.wf(),
            table.order() == Seq::<K>::empty(),
            table.map() == Map::<K, V>::empty(),
    {
        let table = Table { keys: Vec::new(), values: Vec::new() };
        assert(table.map() =~= Map::<K, V>::empty());
        table
    }

    pub fn len(&self) -> (n: usize)
        requires
            self.wf(),
        ensures
            n == self.order().len(),
    {
        self.keys.len()
    }

    /// The identifier at a position of the order.
    pub fn key_at(&self, i: usize) -> (key: K)
        requires
            self.wf(),
            i < self.order().len(),
        ensures
            key == self.order()[i as int],
            self.map().contains_key(key),
    {
        proof {
            lemma_index_of_unique(self.keys@, i as int);
        }
        self.keys[i]
    }

    /// The value filed under the identifier at a position of the order.
    pub fn value_at(&self, i: usize) -> (value: V)
        requires
            self.wf(),
            i < self.order().len(),
        ensures
            self.map().contains_key(self.order()[i as int]),
            value == self.map()[self.order()[i as int]],
    {
        proof {
            lemma_index_of_unique(self.keys@, i as int);
        }
        self.values[i]
    }

    fn find(&self, k: K) -> (found: Option<usize>)
        ensures
            match found {
                Some(i) => i < self.keys@.len() && self.keys@[i as int] == k,
                None => !self.keys@.contains(k),
            },
    {
        let key = k.to_key();
        let mut i: usize = 0;
        while i < self.keys.len()
            invariant
                i <= self.keys@.len(),
                key == k.key(),
                forall|j: int| 0 <= j < i ==> self.keys@[j] != k,
            decreases self.keys@.len() - i,
        {
            if self.keys[i].to_key() == key {
                proof {
                    K::lemma_key_injective(self.keys@[i as int], k);
                }
                return Some(i);
            }
            i += 1;
        }
        None
    }

    /// What is filed under `k`, if anything.
    pub fn get(&self, k: K) -> (value: Option<V>)
        requires
            self.wf(),
        ensures
            value == (if self.map().contains_key(k) {
                Some(self.map()[k])
            } else {
                None
            }),
    {
        match self.find(k) {
            Some(i) => {
                proof {
                    lemma_index_of_unique(self.keys@, i as int);
                }
                Some(self.values[i])
            },
            None => None,
        }
    }

    /// Files `v` under `k`. A new identifier goes to the end of the order; one
    /// already on file keeps its place.
    pub fn insert(&mut self, k: K, v: V)
        requires
            old(self).wf(),
        ensures
            final(self).wf(),
            final(self).map() == old(self).map().insert(k, v),
            final(self).order() == with_item(old(self).order(), k),
    {
        match self.find(k) {
            Some(i) => {
                self.values.set(i, v);
                proof {
                    lemma_index_of_unique(self.keys@, i as int);
                    assert(self.map() =~= old(self).map().insert(k, v));
                }
            },
            None => {
                self.keys.push(k);
                self.values.push(v);
                proof {
                    let old_keys = old(self).keys@;
                    let new_keys = self.keys@;
                    assert forall|q: K| new_keys.contains(q) <==> (q == k || old_keys.contains(q)) by {
                        if old_keys.contains(q) {
                            let j = old_keys.index_of(q);
                            assert(new_keys[j] == q);
                        }
                        assert(new_keys[old_keys.len() as int] == k);
                    }
                    assert forall|q: K| old_keys.contains(q) implies new_keys.index_of(q)
                        == old_keys.index_of(q) by {
                        let j = old_keys.index_of(q);
                        assert(new_keys[j] == q);
                        lemma_index_of_unique(new_keys, j);
                    }
                    lemma_index_of_unique(new_keys, old_keys.len() as int);
                    assert(self.map() =~= old(self).map().insert(k, v));
                }
            },
        }
    }
}

} // verus!
