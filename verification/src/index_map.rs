//! A map from dense, small integer keys to values, backed by a vector of
//! optional slots. All identifiers of the intermediate representation are
//! dense per package, so every table of the analysis is kept in this map.

use core::marker::PhantomData;
use vstd::prelude::*;

verus! {

/// A key type that is a thin wrapper around a dense small index.
pub trait Idx: Copy + Sized {
    /// The index this key stands for.
    spec fn idx(self) -> int;

    /// The key standing for a given index.
    spec fn from_idx(i: int) -> Self;

    /// Keys are exactly their indices: going back to the key is the identity.
    proof fn lemma_idx_roundtrip(self)
        ensures
            Self::from_idx(self.idx()) == self,
            self.idx() >= 0,
    ;

    fn to_index(self) -> (r: usize)
        ensures
            r as int == self.idx(),
    ;

    fn from_index(i: usize) -> (r: Self)
        ensures
            r == Self::from_idx(i as int),
            r.idx() == i as int,
    ;
}

/// A map from a dense integer-like key `K` to values `V`, stored as a vector
/// of optional slots indexed by the key's index.
pub struct IndexMap<K, V> {
    slots: Vec<Option<V>>,
    marker: PhantomData<K>,
}

impl<K: Idx, V> IndexMap<K, V> {
    /// The slots as a sequence; absent slots are `None`.
    pub closed spec fn slots_view(self) -> Seq<Option<V>> {
        self.slots@
    }

    /// The value stored at index `i`, or `None` when the slot is empty or
    /// beyond the stored slots.
    pub open spec fn spec_get(self, i: int) -> Option<V> {
        if 0 <= i < self.slots_view().len() {
            self.slots_view()[i]
        } else {
            None
        }
    }

    /// Whether a value is stored at index `i`.
    pub open spec fn spec_contains(self, i: int) -> bool {
        self.spec_get(i) is Some
    }

    /// The slot vector is an in-memory vector, so its length is bounded by
    /// the machine word, and every present index fits in `usize`.
    pub proof fn lemma_slots_len_bound(self)
        ensures
            self.slots_view().len() <= usize::MAX,
    {
        vstd::std_specs::vec::axiom_spec_len(&self.slots);
    }

    pub fn new() -> (r: Self)
        ensures
            r.slots_view() =~= Seq::<Option<V>>::empty(),
            forall|i: int| r.spec_get(i) is None,
    {
        IndexMap { slots: Vec::new(), marker: PhantomData }
    }

    /// How many slots are stored; every present key has an index below this.
    pub fn slot_count(&self) -> (r: usize)
        ensures
            r == self.slots_view().len(),
    {
        self.slots.len()
    }

    pub fn contains_key(&self, key: K) -> (r: bool)
        ensures
            r == self.spec_contains(key.idx()),
    {
        let index = key.to_index();
        if index < self.slots.len() {
            self.slots[index].is_some()
        } else {
            false
        }
    }

    pub fn get(&self, key: K) -> (r: Option<&V>)
        ensures
            match r {
                Some(v) => self.spec_get(key.idx()) == Some(*v),
                None => self.spec_get(key.idx()) is None,
            },
    {
        let index = key.to_index();
        if index < self.slots.len() {
            self.slots[index].as_ref()
        } else {
            None
        }
    }

    /// Stores a value for a key, growing the slots as needed; an existing
    /// value at the same key is replaced.
    pub fn insert(&mut self, key: K, value: V)
        ensures
            final(self).spec_get(key.idx()) == Some(value),
            forall|j: int|
                j != key.idx() ==> final(self).spec_get(j) == old(self).spec_get(j),
            final(self).slots_view().len() == if old(self).slots_view().len() > key.idx() {
                old(self).slots_view().len() as int
            } else {
                key.idx() + 1
            },
    {
        let index = key.to_index();
        if self.slots.len() <= index {
            while self.slots.len() <= index
                invariant
                    self.slots@.len() <= index + 1,
                    forall|j: int|
                        0 <= j < old(self).slots@.len() ==> self.slots@[j] == old(self).slots@[j],
                    forall|j: int|
                        old(self).slots@.len() <= j < self.slots@.len() ==> self.slots@[j] is None,
                    old(self).slots@.len() <= self.slots@.len(),
                decreases index + 1 - self.slots@.len(),
            {
                self.slots.push(None);
            }
        }
        self.slots[index] = Some(value);
    }

    /// A mutable reference to the value stored for a key.
    pub fn get_mut(&mut self, key: K) -> (r: Option<&mut V>)
        ensures
            match r {
                Some(v) => {
                    &&& old(self).spec_get(key.idx()) == Some(*v)
                    &&& final(self).spec_get(key.idx()) == Some(*final(v))
                    &&& forall|j: int|
                        j != key.idx() ==> final(self).spec_get(j) == old(self).spec_get(j)
                    &&& final(self).slots_view().len() == old(self).slots_view().len()
                },
                None => {
                    &&& old(self).spec_get(key.idx()) is None
                    &&& *final(self) == *old(self)
                },
            },
    {
        let index = key.to_index();
        if index < self.slots.len() {
            if self.slots[index].is_some() {
                match &mut self.slots[index] {
                    Some(v) => Some(v),
                    None => None,  // unreachable: the slot was filled
                }
            } else {
                None
            }
        } else {
            None
        }
    }

    /// A cursor over the entries, in index order, borrowing the map.
    pub fn iter<'a>(&'a self) -> (r: Iter<'a, K, V>)
        ensures
            r.slots_view() == self.slots_view(),
            r.position() == 0,
    {
        Iter { slots: &self.slots, next_index: 0, marker: PhantomData }
    }

    /// A cursor over the values, in index order, borrowing the map.
    pub fn values<'a>(&'a self) -> (r: Values<'a, V>)
        ensures
            r.slots_view() == self.slots_view(),
            r.position() == 0,
    {
        Values { slots: &self.slots, next_index: 0 }
    }

    /// Removes and returns the value stored for a key, leaving the slot
    /// empty.
    pub fn take(&mut self, key: K) -> (r: Option<V>)
        ensures
            r == old(self).spec_get(key.idx()),
            final(self).spec_get(key.idx()) is None,
            forall|j: int|
                j != key.idx() ==> final(self).spec_get(j) == old(self).spec_get(j),
            final(self).slots_view().len() == old(self).slots_view().len(),
    {
        let index = key.to_index();
        if index < self.slots.len() {
            let mut taken: Option<V> = None;
            core::mem::swap(&mut taken, &mut self.slots[index]);
            taken
        } else {
            None
        }
    }

    /// A cursor over the entries, in index order; the map itself is left
    /// empty.
    pub fn drain(&mut self) -> (r: Drain<K, V>)
        ensures
            r.slots_view() == old(self).slots_view(),
            r.position() == 0,
            forall|i: int| final(self).spec_get(i) is None,
    {
        let mut slots: Vec<Option<V>> = Vec::new();
        core::mem::swap(&mut slots, &mut self.slots);
        Drain { slots, next_index: 0, marker: PhantomData }
    }

    /// A cursor over the entries, in index order; the map is consumed.
    pub fn into_iter(self) -> (r: IntoIter<K, V>)
        ensures
            r.slots_view() == self.slots_view(),
            r.position() == 0,
    {
        IntoIter { slots: self.slots, next_index: 0, marker: PhantomData }
    }

    /// Empties the map.
    pub fn clear(&mut self)
        ensures
            final(self).slots_view() =~= Seq::<Option<V>>::empty(),
            forall|i: int| final(self).spec_get(i) is None,
    {
        self.slots.clear();
    }

    /// The present keys, in index order.
    pub fn keys(&self) -> (r: Vec<K>)
        ensures
            r@.len() == spec_entry_count(self.slots_view()),
            forall|j: int|
                0 <= j < r@.len() ==> #[trigger] self.spec_contains(r@[j].idx()),
            forall|j1: int, j2: int|
                0 <= j1 < j2 < r@.len() ==> r@[j1].idx() < r@[j2].idx(),
            forall|i: int|
                #[trigger] self.spec_contains(i) ==> exists|j: int|
                    0 <= j < r@.len() && r@[j].idx() == i,
    {
        let mut r: Vec<K> = Vec::new();
        let mut i: usize = 0;
        while i < self.slots.len()
            invariant
                i <= self.slots@.len(),
                r@.len() == spec_entry_count(self.slots@.take(i as int)),
                forall|j: int|
                    0 <= j < r@.len() ==> 0 <= #[trigger] r@[j].idx() < i
                        && self.spec_contains(r@[j].idx()),
                forall|j1: int, j2: int| 0 <= j1 < j2 < r@.len() ==> r@[j1].idx() < r@[j2].idx(),
                forall|k: int|
                    0 <= k < i && self.slots@[k] is Some ==> exists|j: int|
                        0 <= j < r@.len() && #[trigger] r@[j].idx() == k,
            decreases self.slots@.len() - i,
        {
            proof {
                assert(self.slots@.take(i + 1).drop_last() =~= self.slots@.take(i as int));
            }
            let ghost prior = r@;
            if self.slots[i].is_some() {
                r.push(K::from_index(i));
            }
            i += 1;
            proof {
                assert forall|k: int| 0 <= k < i && self.slots@[k] is Some implies exists|j: int|
                    0 <= j < r@.len() && #[trigger] r@[j].idx() == k by {
                    if k == i - 1 {
                        assert(r@[r@.len() - 1].idx() == k);
                    } else {
                        let j0 = choose|j: int| 0 <= j < prior.len() && #[trigger] prior[j].idx() == k;
                        assert(r@[j0].idx() == k);
                    }
                }
            }
        }
        proof {
            assert(self.slots@.take(self.slots@.len() as int) =~= self.slots@);
        }
        r
    }
}

/// How many slots of a sequence hold a value.
pub closed spec fn spec_entry_count<V>(s: Seq<Option<V>>) -> nat
    decreases s.len(),
{
    if s.len() == 0 {
        0
    } else {
        spec_entry_count(s.drop_last()) + if s.last() is Some { 1nat } else { 0nat }
    }
}

/// The index of the first filled slot at or after `from`, or the length of
/// the sequence when none is filled there.
pub open spec fn spec_first_filled<V>(s: Seq<Option<V>>, from: int) -> int
    decreases s.len() - from,
{
    if from < 0 || from >= s.len() {
        s.len() as int
    } else if s[from] is Some {
        from
    } else {
        spec_first_filled(s, from + 1)
    }
}

/// Every slot before the first filled one is empty.
pub proof fn lemma_first_filled_prefix_none<V>(s: Seq<Option<V>>, from: int)
    requires
        from >= 0,
    ensures
        forall|j: int| from <= j < spec_first_filled(s, from) ==> s[j] is None,
    decreases s.len() - from,
{
    if from < s.len() && s[from] is None {
        lemma_first_filled_prefix_none(s, from + 1);
    }
}

/// A cursor over the entries a map was drained of, in index order.
pub struct Drain<K, V> {
    slots: Vec<Option<V>>,
    next_index: usize,
    marker: PhantomData<K>,
}

impl<K: Idx, V> Drain<K, V> {
    /// The drained slots.
    pub closed spec fn slots_view(self) -> Seq<Option<V>> {
        self.slots@
    }

    /// The index the cursor continues from.
    pub closed spec fn position(self) -> int {
        self.next_index as int
    }

    /// The next entry: the first filled slot at or after the position, whose
    /// key is its index; `None` once no filled slot remains.
    pub fn next(&mut self) -> (r: Option<(K, V)>)
        ensures
            final(self).slots_view().len() == old(self).slots_view().len(),
            forall|j: int|
                final(self).position() <= j < final(self).slots_view().len()
                    ==> final(self).slots_view()[j] == old(self).slots_view()[j],
            ({
                let first = spec_first_filled(old(self).slots_view(), old(self).position());
                match r {
                    Some((key, value)) => {
                        &&& first < old(self).slots_view().len()
                        &&& key == K::from_idx(first)
                        &&& key.idx() == first
                        &&& old(self).slots_view()[first] == Some(value)
                        &&& final(self).position() == first + 1
                        &&& final(self).position() > old(self).position()
                    },
                    None => {
                        &&& first == old(self).slots_view().len()
                        &&& final(self).position() >= old(self).slots_view().len()
                        &&& final(self).slots_view() == old(self).slots_view()
                    },
                }
            }),
    {
        while self.next_index < self.slots.len()
            invariant
                old(self).slots_view() == self.slots@,
                old(self).position() <= self.next_index as int,
                spec_first_filled(self.slots@, old(self).position()) == spec_first_filled(
                    self.slots@,
                    self.next_index as int,
                ),
            decreases self.slots@.len() - self.next_index,
        {
            let index = self.next_index;
            if self.slots[index].is_some() {
                let mut taken: Option<V> = None;
                core::mem::swap(&mut taken, &mut self.slots[index]);
                self.next_index = index + 1;
                match taken {
                    Some(value) => {
                        return Some((K::from_index(index), value));
                    }
                    None => {
                        return None;  // unreachable: the slot was filled
                    }
                }
            }
            self.next_index = index + 1;
        }
        None
    }
}

/// A borrowing cursor over the entries of a map, in index order.
pub struct Iter<'a, K, V> {
    slots: &'a Vec<Option<V>>,
    next_index: usize,
    marker: PhantomData<K>,
}

impl<'a, K: Idx, V> Iter<'a, K, V> {
    /// The borrowed slots.
    pub closed spec fn slots_view(self) -> Seq<Option<V>> {
        self.slots@
    }

    /// The index the cursor continues from.
    pub closed spec fn position(self) -> int {
        self.next_index as int
    }

    /// The next entry: the first filled slot at or after the position, whose
    /// key is its index; `None` once no filled slot remains.
    pub fn next(&mut self) -> (r: Option<(K, &'a V)>)
        ensures
            final(self).slots_view() == old(self).slots_view(),
            ({
                let first = spec_first_filled(old(self).slots_view(), old(self).position());
                match r {
                    Some((key, value)) => {
                        &&& first < old(self).slots_view().len()
                        &&& key == K::from_idx(first)
                        &&& key.idx() == first
                        &&& old(self).slots_view()[first] == Some(*value)
                        &&& final(self).position() == first + 1
                        &&& final(self).position() > old(self).position()
                    },
                    None => {
                        &&& first == old(self).slots_view().len()
                        &&& final(self).position() >= old(self).slots_view().len()
                    },
                }
            }),
    {
        while self.next_index < self.slots.len()
            invariant
                old(self).slots_view() == self.slots@,
                old(self).slots == self.slots,
                old(self).position() <= self.next_index as int,
                spec_first_filled(self.slots@, old(self).position()) == spec_first_filled(
                    self.slots@,
                    self.next_index as int,
                ),
            decreases self.slots@.len() - self.next_index,
        {
            let index = self.next_index;
            self.next_index = index + 1;
            match self.slots[index].as_ref() {
                Some(value) => {
                    return Some((K::from_index(index), value));
                }
                None => (),
            }
        }
        None
    }
}

/// A borrowing cursor over the values of a map, in index order.
pub struct Values<'a, V> {
    slots: &'a Vec<Option<V>>,
    next_index: usize,
}

impl<'a, V> Values<'a, V> {
    /// The borrowed slots.
    pub closed spec fn slots_view(self) -> Seq<Option<V>> {
        self.slots@
    }

    /// The index the cursor continues from.
    pub closed spec fn position(self) -> int {
        self.next_index as int
    }

    /// The next value: the one in the first filled slot at or after the
    /// position; `None` once no filled slot remains.
    pub fn next(&mut self) -> (r: Option<&'a V>)
        ensures
            final(self).slots_view() == old(self).slots_view(),
            ({
                let first = spec_first_filled(old(self).slots_view(), old(self).position());
                match r {
                    Some(value) => {
                        &&& first < old(self).slots_view().len()
                        &&& old(self).slots_view()[first] == Some(*value)
                        &&& final(self).position() == first + 1
                        &&& final(self).position() > old(self).position()
                    },
                    None => {
                        &&& first == old(self).slots_view().len()
                        &&& final(self).position() >= old(self).slots_view().len()
                    },
                }
            }),
    {
        while self.next_index < self.slots.len()
            invariant
                old(self).slots_view() == self.slots@,
                old(self).slots == self.slots,
                old(self).position() <= self.next_index as int,
                spec_first_filled(self.slots@, old(self).position()) == spec_first_filled(
                    self.slots@,
                    self.next_index as int,
                ),
            decreases self.slots@.len() - self.next_index,
        {
            let index = self.next_index;
            self.next_index = index + 1;
            match self.slots[index].as_ref() {
                Some(value) => {
                    return Some(value);
                }
                None => (),
            }
        }
        None
    }
}

/// A cursor over the entries of a consumed map, in index order.
pub struct IntoIter<K, V> {
    slots: Vec<Option<V>>,
    next_index: usize,
    marker: PhantomData<K>,
}

impl<K: Idx, V> IntoIter<K, V> {
    /// The consumed slots.
    pub closed spec fn slots_view(self) -> Seq<Option<V>> {
        self.slots@
    }

    /// The index the cursor continues from.
    pub closed spec fn position(self) -> int {
        self.next_index as int
    }

    /// The next entry: the first filled slot at or after the position, whose
    /// key is its index; `None` once no filled slot remains.
    pub fn next(&mut self) -> (r: Option<(K, V)>)
        ensures
            final(self).slots_view().len() == old(self).slots_view().len(),
            forall|j: int|
                final(self).position() <= j < final(self).slots_view().len()
                    ==> final(self).slots_view()[j] == old(self).slots_view()[j],
            ({
                let first = spec_first_filled(old(self).slots_view(), old(self).position());
                match r {
                    Some((key, value)) => {
                        &&& first < old(self).slots_view().len()
                        &&& key == K::from_idx(first)
                        &&& key.idx() == first
                        &&& old(self).slots_view()[first] == Some(value)
                        &&& final(self).position() == first + 1
                        &&& final(self).position() > old(self).position()
                    },
                    None => {
                        &&& first == old(self).slots_view().len()
                        &&& final(self).position() >= old(self).slots_view().len()
                        &&& final(self).slots_view() == old(self).slots_view()
                    },
                }
            }),
    {
        while self.next_index < self.slots.len()
            invariant
                old(self).slots_view() == self.slots@,
                old(self).position() <= self.next_index as int,
                spec_first_filled(self.slots@, old(self).position()) == spec_first_filled(
                    self.slots@,
                    self.next_index as int,
                ),
            decreases self.slots@.len() - self.next_index,
        {
            let index = self.next_index;
            if self.slots[index].is_some() {
                let mut taken: Option<V> = None;
                core::mem::swap(&mut taken, &mut self.slots[index]);
                self.next_index = index + 1;
                match taken {
                    Some(value) => {
                        return Some((K::from_index(index), value));
                    }
                    None => {
                        return None;  // unreachable: the slot was filled
                    }
                }
            }
            self.next_index = index + 1;
        }
        None
    }
}

} // verus!
