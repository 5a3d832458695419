//! Dense slot table with stable integer keys.
//!
//! Each in-flight operation owns one slot, keyed by the index that is embedded
//! in the kernel submission entry.  Indices stay valid for the whole life of
//! the slot and may be reused only after the slot has been removed; `insert`
//! guarantees that the key it hands out is not live at the moment of insertion.

use vstd::prelude::*;

verus! {

/// Slot table backed by a vector of optional slots plus a free list of the
/// vacant indices that may be reused.
pub struct Slab<T> {
    entries: Vec<Option<T>>,
    free: Vec<usize>,
}

impl<T> Slab<T> {
    /// True when index `i` currently holds a slot.
    pub closed spec fn live(self, i: int) -> bool {
        0 <= i < self.entries@.len() && self.entries@[i] is Some
    }

    /// The value stored at a live index.
    pub closed spec fn slot(self, i: int) -> T
        recommends
            self.live(i),
    {
        self.entries@[i].unwrap()
    }

    /// Internal consistency: the free list names vacant in-range indices,
    /// each at most once.
    pub closed spec fn wf(self) -> bool {
        &&& forall|k: int|
            0 <= k < self.free@.len() ==> (#[trigger] self.free@[k]) < self.entries@.len()
                && self.entries@[self.free@[k] as int] is None
        &&& forall|k1: int, k2: int|
            0 <= k1 < k2 < self.free@.len() ==> self.free@[k1] != self.free@[k2]
    }

    /// An empty table.
    pub fn new() -> (s: Slab<T>)
        ensures
            s.wf(),
            forall|i: int| !s.live(i),
    {
        Slab { entries: Vec::new(), free: Vec::new() }
    }

    /// Whether `i` currently holds a slot.
    pub fn contains(&self, i: usize) -> (b: bool)
        ensures
            b == self.live(i as int),
    {
        i < self.entries.len() && self.entries[i].is_some()
    }

    /// Store `value` in a vacant slot and hand out its index.  The index is
    /// not live on entry: a key embedded in a submission entry is never
    /// reissued while the slot it names still exists.
    pub fn insert(&mut self, value: T) -> (i: usize)
        requires
            old(self).wf(),
        ensures
            final(self).wf(),
            !old(self).live(i as int),
            final(self).live(i as int),
            final(self).slot(i as int) == value,
            forall|j: int|
                j != i as int ==> (#[trigger] final(self).live(j) <==> old(self).live(j)),
            forall|j: int|
                j != i as int && old(self).live(j) ==> #[trigger] final(self).slot(j) == old(
                    self,
                ).slot(j),
    {
        match self.free.pop() {
            Some(i) => {
                let prev = self.entries.remove(i);
                self.entries.insert(i, Some(value));
                proof {
                    assert(self.entries@ =~= old(self).entries@.update(i as int, Some(value)));
                }
                i
            },
            None => {
                self.entries.push(Some(value));
                self.entries.len() - 1
            },
        }
    }

    /// Remove the slot at `i`, returning its value and recycling the index.
    pub fn remove(&mut self, i: usize) -> (value: T)
        requires
            old(self).wf(),
            old(self).live(i as int),
        ensures
            final(self).wf(),
            value == old(self).slot(i as int),
            !final(self).live(i as int),
            forall|j: int|
                j != i as int ==> (#[trigger] final(self).live(j) <==> old(self).live(j)),
            forall|j: int|
                j != i as int && old(self).live(j) ==> #[trigger] final(self).slot(j) == old(
                    self,
                ).slot(j),
    {
        let prev = self.entries.remove(i);
        self.entries.insert(i, None);
        proof {
            assert(self.entries@ =~= old(self).entries@.update(i as int, None::<T>));
            assert(forall|k: int|
                0 <= k < self.free@.len() ==> old(self).free@[k] == #[trigger] self.free@[k]);
        }
        self.free.push(i);
        prev.unwrap()
    }

    /// Replace the value of the live slot at `i`, returning the previous value.
    pub fn replace(&mut self, i: usize, value: T) -> (prev: T)
        requires
            old(self).wf(),
            old(self).live(i as int),
        ensures
            final(self).wf(),
            prev == old(self).slot(i as int),
            final(self).live(i as int),
            final(self).slot(i as int) == value,
            forall|j: int|
                j != i as int ==> (#[trigger] final(self).live(j) <==> old(self).live(j)),
            forall|j: int|
                j != i as int && old(self).live(j) ==> #[trigger] final(self).slot(j) == old(
                    self,
                ).slot(j),
    {
        let prev = self.entries.remove(i);
        self.entries.insert(i, Some(value));
        proof {
            assert(self.entries@ =~= old(self).entries@.update(i as int, Some(value)));
        }
        prev.unwrap()
    }

    /// Every live index fits in the machine's address range: the table is
    /// backed by a vector, whose length a `usize` measures.
    pub proof fn lemma_live_bounded(&self, i: int)
        ensures
            self.live(i) ==> i <= usize::MAX as int,
    {
        vstd::std_specs::vec::axiom_spec_len(&self.entries);
    }

    /// Borrow the value of the live slot at `i`.
    pub fn get(&self, i: usize) -> (r: &T)
        requires
            self.wf(),
            self.live(i as int),
        ensures
            *r == self.slot(i as int),
    {
        self.entries[i].as_ref().unwrap()
    }
}

} // verus!
