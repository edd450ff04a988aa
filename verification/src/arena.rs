//! A store of values behind generational handles.
//!
//! A handle names a slot and the generation of the value that was put there.
//! Once the value is removed the handle is stale for ever: the slot may be
//! used again, but only under a later generation.

use vstd::prelude::*;
use crate::search::{first_such, lemma_first_such_is};

verus! {

/// A reference to one value in an [`Arena`].
#[derive(Clone, Copy, Debug, PartialEq, Eq, Hash, Structural)]
pub struct Handle {
    pub index: usize,
    pub generation: u64,
}

/// One place of an arena: the generation it has reached, and the value that
/// lives there now, if any.
pub struct Slot<T> {
    pub generation: u64,
    pub value: Option<T>,
}

/// A growable store whose values are found again by [`Handle`].
pub struct Arena<T> {
    slots: Vec<Slot<T>>,
}

/// Whether `h` names a value that is in the store now.
pub open spec fn holds<T>(slots: Seq<Slot<T>>, h: Handle) -> bool {
    &&& h.index < slots.len()
    &&& slots[h.index as int].generation == h.generation
    &&& slots[h.index as int].value is Some
}

/// The value that `h` names.
pub open spec fn value_of<T>(slots: Seq<Slot<T>>, h: Handle) -> T
    recommends
        holds(slots, h),
{
    slots[h.index as int].value->0
}

/// Whether `h` named a value that has since been removed.
pub open spec fn stale<T>(slots: Seq<Slot<T>>, h: Handle) -> bool {
    &&& h.index < slots.len()
    &&& (h.generation < slots[h.index as int].generation || (h.generation
        == slots[h.index as int].generation && slots[h.index as int].value is None))
}

/// Whether a new value may move into this slot.
pub open spec fn reusable<T>(slot: Slot<T>) -> bool {
    slot.value is None && slot.generation < u64::MAX
}

/// Whether `h` is the handle under which the next value will be stored: that
/// of the first slot that can take a value, at its next generation, or that
/// of a new slot behind the others.
pub open spec fn is_next<T>(slots: Seq<Slot<T>>, h: Handle) -> bool {
    &&& h.index <= slots.len()
    &&& forall|j: int| 0 <= j < h.index ==> !reusable(#[trigger] slots[j])
    &&& h.index < slots.len() ==> reusable(slots[h.index as int]) && h.generation
        == slots[h.index as int].generation + 1
    &&& h.index == slots.len() ==> h.generation == 0
}

/// The handle under which the next value will be stored.
pub open spec fn next_handle<T>(slots: Seq<Slot<T>>) -> Handle {
    let i = first_such(slots, |s: Slot<T>| reusable(s));
    if i < slots.len() {
        Handle { index: i as usize, generation: (slots[i].generation + 1) as u64 }
    } else {
        Handle { index: slots.len() as usize, generation: 0 }
    }
}

/// The slots after `h` was given the value `v`.
pub open spec fn with_value<T>(slots: Seq<Slot<T>>, h: Handle, v: T) -> Seq<Slot<T>> {
    let slot = Slot { generation: h.generation, value: Some(v) };
    if h.index < slots.len() {
        slots.update(h.index as int, slot)
    } else {
        slots.push(slot)
    }
}

/// The slots after the value that `h` names, if there is one, was removed.
pub open spec fn without<T>(slots: Seq<Slot<T>>, h: Handle) -> Seq<Slot<T>> {
    if holds(slots, h) {
        slots.update(h.index as int, Slot { generation: h.generation, value: None })
    } else {
        slots
    }
}

/// The slots after every value was removed.
pub open spec fn emptied<T>(slots: Seq<Slot<T>>) -> Seq<Slot<T>> {
    Seq::new(slots.len(), |i: int| Slot { generation: slots[i].generation, value: None })
}

impl<T> View for Arena<T> {
    type V = Seq<Slot<T>>;

    closed spec fn view(&self) -> Seq<Slot<T>> {
        self.slots@
    }
}

impl<T> Arena<T> {
    /// An arena without slots.
    pub fn new() -> (a: Self)
        ensures
            a@ == Seq::<Slot<T>>::empty(),
    {
        Arena { slots: Vec::new() }
    }

    /// The number of slots, used or not.
    pub fn slot_count(&self) -> (n: usize)
        ensures
            n == self@.len(),
    {
        self.slots.len()
    }

    /// The slots of an arena can be counted in a `usize`.
    pub proof fn lemma_fits(&self)
        ensures
            self@.len() <= usize::MAX,
    {
        assert(self.slots@.len() == self.slots.len());
    }

    /// The handle of the value in slot `i`, if the slot is in use.
    pub fn handle_at(&self, i: usize) -> (r: Option<Handle>)
        ensures
            r is Some <==> (i < self@.len() && self@[i as int].value is Some),
            r matches Some(h) ==> h.index == i && h.generation == self@[i as int].generation
                && holds(self@, h),
    {
        if i < self.slots.len() && self.slots[i].value.is_some() {
            Some(Handle { index: i, generation: self.slots[i].generation })
        } else {
            None
        }
    }

    /// Whether `h` names a value that is in the store.
    pub fn contains(&self, h: Handle) -> (b: bool)
        ensures
            b == holds(self@, h),
    {
        h.index < self.slots.len() && self.slots[h.index].generation == h.generation
            && self.slots[h.index].value.is_some()
    }

    /// The value that `h` names; `None` for a stale or unknown handle.
    pub fn get(&self, h: Handle) -> (r: Option<&T>)
        ensures
            r is Some <==> holds(self@, h),
            r matches Some(v) ==> *v == value_of(self@, h),
    {
        if h.index < self.slots.len() && self.slots[h.index].generation == h.generation {
            match &self.slots[h.index].value {
                Some(v) => Some(v),
                None => None,
            }
        } else {
            None
        }
    }

    /// Stores `v` in the first slot that can take it, or in a new slot behind
    /// the others, and returns its handle.
    pub fn insert(&mut self, v: T) -> (h: Handle)
        ensures
            is_next(old(self)@, h),
            h == next_handle(old(self)@),
            final(self)@ == with_value(old(self)@, h, v),
    {
        let n = self.slots.len();
        let mut i: usize = 0;
        while i < n
            invariant
                n == self.slots@.len(),
                self.slots@ == old(self).slots@,
                i <= n,
                forall|j: int| 0 <= j < i ==> !reusable(#[trigger] self.slots@[j]),
            decreases n - i,
        {
            if self.slots[i].value.is_none() && self.slots[i].generation < u64::MAX {
                let generation: u64 = self.slots[i].generation + 1;
                proof {
                    lemma_first_such_is(old(self).slots@, |s: Slot<T>| reusable(s), i as int);
                }
                self.slots.set(i, Slot { generation, value: Some(v) });
                return Handle { index: i, generation };
            }
            i += 1;
        }
        proof {
            lemma_first_such_is(old(self).slots@, |s: Slot<T>| reusable(s), n as int);
        }
        self.slots.push(Slot { generation: 0, value: Some(v) });
        Handle { index: n, generation: 0 }
    }

    /// Replaces the value that `h` names. Does nothing, and says so, when `h`
    /// names none.
    pub fn set(&mut self, h: Handle, v: T) -> (done: bool)
        ensures
            done == holds(old(self)@, h),
            done ==> final(self)@ == with_value(old(self)@, h, v),
            !done ==> final(self)@ == old(self)@,
    {
        if h.index < self.slots.len() && self.slots[h.index].generation == h.generation
            && self.slots[h.index].value.is_some() {
            self.slots.set(h.index, Slot { generation: h.generation, value: Some(v) });
            true
        } else {
            false
        }
    }

    /// Removes the value that `h` names. The handle is stale from then on.
    pub fn remove(&mut self, h: Handle) -> (done: bool)
        ensures
            done == holds(old(self)@, h),
            final(self)@ == without(old(self)@, h),
    {
        if h.index < self.slots.len() && self.slots[h.index].generation == h.generation
            && self.slots[h.index].value.is_some() {
            self.slots.set(h.index, Slot { generation: h.generation, value: None });
            true
        } else {
            false
        }
    }

    /// Removes every value. Every handle that was given out is stale from
    /// then on.
    pub fn clear(&mut self)
        ensures
            final(self)@ == emptied(old(self)@),
    {
        let n = self.slots.len();
        let mut i: usize = 0;
        while i < n
            invariant
                n == self.slots@.len(),
                n == old(self).slots@.len(),
                i <= n,
                forall|j: int|
                    0 <= j < i ==> #[trigger] self.slots@[j] == (Slot::<T> {
                        generation: old(self).slots@[j].generation,
                        value: None,
                    }),
                forall|j: int| i <= j < n ==> #[trigger] self.slots@[j] == old(self).slots@[j],
            decreases n - i,
        {
            let generation: u64 = self.slots[i].generation;
            self.slots.set(i, Slot { generation, value: None });
            i += 1;
        }
        assert(self.slots@ =~= emptied(old(self).slots@));
    }
}

/// The next handle names no value yet, and once it does every other handle
/// names what it named before.
pub proof fn lemma_next_is_new<T>(slots: Seq<Slot<T>>, new: Handle, v: T)
    requires
        is_next(slots, new),
    ensures
        !holds(slots, new),
        holds(with_value(slots, new, v), new),
        value_of(with_value(slots, new, v), new) == v,
        forall|h: Handle|
            h != new ==> (#[trigger] holds(with_value(slots, new, v), h) <==> holds(slots, h)),
        forall|h: Handle|
            holds(slots, h) ==> #[trigger] value_of(with_value(slots, new, v), h) == value_of(
                slots,
                h,
            ),
{
}

/// A handle that went stale stays stale when a value is stored.
pub proof fn lemma_stale_after_insert<T>(slots: Seq<Slot<T>>, h: Handle, new: Handle, v: T)
    requires
        stale(slots, h),
        is_next(slots, new),
    ensures
        stale(with_value(slots, new, v), h),
        !holds(with_value(slots, new, v), h),
{
}

/// A handle that went stale stays stale when a value is replaced.
pub proof fn lemma_stale_after_set<T>(slots: Seq<Slot<T>>, h: Handle, target: Handle, v: T)
    requires
        stale(slots, h),
        holds(slots, target),
    ensures
        stale(with_value(slots, target, v), h),
        !holds(with_value(slots, target, v), h),
{
}

/// A handle whose value was removed is stale, and a handle that was stale
/// before stays so.
pub proof fn lemma_stale_after_remove<T>(slots: Seq<Slot<T>>, h: Handle, removed: Handle)
    requires
        stale(slots, h) || (h == removed && holds(slots, h)),
    ensures
        stale(without(slots, removed), h),
        !holds(without(slots, removed), h),
{
}

/// After the store was emptied every handle that named a value, or was stale,
/// is stale.
pub proof fn lemma_stale_after_clear<T>(slots: Seq<Slot<T>>, h: Handle)
    requires
        stale(slots, h) || holds(slots, h),
    ensures
        stale(emptied(slots), h),
        !holds(emptied(slots), h),
{
}

} // verus!
