//! The store of entities.
//!
//! An entity is a slot of an arena with its [`Components`]. A system reads
//! the slots in order, so that whatever it does to several entities it does
//! in the order of their indices.

use vstd::prelude::*;
use crate::arena::{Arena, Handle, Slot, holds, value_of, with_value, without, emptied, is_next, next_handle};
use crate::components::{Components, EntityId, Walker};
use crate::direction::Direction;
use crate::ownership::{lemma_tied_after_destroy, same_colliders, tied};
use crate::physics::{PhysicsAdapter, PhysicsView};

verus! {

/// The entities by slot.
pub type Entities = Seq<Slot<Components>>;

/// Whether `e` names an entity that lives.
pub open spec fn alive(slots: Entities, e: EntityId) -> bool {
    holds(slots, e.handle)
}

/// What the entity `e` carries.
pub open spec fn components_of(slots: Entities, e: EntityId) -> Components
    recommends
        alive(slots, e),
{
    value_of(slots, e.handle)
}

/// The entity that lives in slot `i`.
pub open spec fn entity_in(slots: Entities, i: int) -> EntityId
    recommends
        0 <= i < slots.len(),
{
    EntityId { handle: Handle { index: i as usize, generation: slots[i].generation } }
}

/// The slot with other components in place of those it has; an empty slot
/// stays empty.
pub open spec fn refilled(slot: Slot<Components>, c: Components) -> Slot<Components> {
    match slot.value {
        Some(_) => Slot { generation: slot.generation, value: Some(c) },
        None => slot,
    }
}

/// The components of `c` with the walker, if it is one, turned to `d`.
pub open spec fn turned(c: Components, d: Direction) -> Components {
    match c.walker {
        Some(_) => Components { walker: Some(Walker { direction: d }), ..c },
        None => c,
    }
}

/// The entities after the walker `e` was turned to `d`. Nothing changes if
/// `e` names no walker.
pub open spec fn with_direction(slots: Entities, e: EntityId, d: Direction) -> Entities {
    if alive(slots, e) {
        with_value(slots, e.handle, turned(components_of(slots, e), d))
    } else {
        slots
    }
}

/// The physics world after the entity `e` was destroyed: its collider, if it
/// had one, is gone.
pub open spec fn released(p: PhysicsView, slots: Entities, e: EntityId) -> PhysicsView {
    if alive(slots, e) {
        match components_of(slots, e).collider {
            Some(h) => p.without_collider(h),
            None => p,
        }
    } else {
        p
    }
}

/// The store of entities.
pub struct World {
    entities: Arena<Components>,
}

impl View for World {
    type V = Entities;

    closed spec fn view(&self) -> Entities {
        self.entities@
    }
}

impl World {
    /// A world without entities.
    pub fn new() -> (w: Self)
        ensures
            w@.len() == 0,
    {
        World { entities: Arena::new() }
    }

    /// The number of slots, used or not.
    pub fn slot_count(&self) -> (n: usize)
        ensures
            n == self@.len(),
    {
        self.entities.slot_count()
    }

    /// The slots of a world can be counted in a `usize`.
    pub proof fn lemma_fits(&self)
        ensures
            self@.len() <= usize::MAX,
    {
        self.entities.lemma_fits();
    }

    /// The entity in slot `i` and what it carries; `None` for a slot that is
    /// empty or does not exist.
    pub fn entity_at(&self, i: usize) -> (r: Option<(EntityId, Components)>)
        ensures
            r is Some <==> (i < self@.len() && self@[i as int].value is Some),
            r matches Some((e, c)) ==> e == entity_in(self@, i as int) && alive(self@, e) && c
                == self@[i as int].value->0,
    {
        match self.entities.handle_at(i) {
            Some(handle) => match self.entities.get(handle) {
                Some(c) => Some((EntityId { handle }, *c)),
                None => None,
            },
            None => None,
        }
    }

    /// Whether `e` names an entity that lives.
    pub fn is_alive(&self, e: EntityId) -> (b: bool)
        ensures
            b == alive(self@, e),
    {
        self.entities.contains(e.handle)
    }

    /// What the entity `e` carries; `None` for an entity that is gone.
    pub fn get(&self, e: EntityId) -> (r: Option<Components>)
        ensures
            r is Some <==> alive(self@, e),
            r matches Some(c) ==> c == components_of(self@, e),
    {
        match self.entities.get(e.handle) {
            Some(c) => Some(*c),
            None => None,
        }
    }

    /// Creates an entity that carries `c`.
    pub fn create(&mut self, c: Components) -> (e: EntityId)
        ensures
            is_next(old(self)@, e.handle),
            e.handle == next_handle(old(self)@),
            final(self)@ == with_value(old(self)@, e.handle, c),
    {
        EntityId { handle: self.entities.insert(c) }
    }

    /// Gives the entity `e` other components. Says whether `e` lives.
    pub fn replace(&mut self, e: EntityId, c: Components) -> (done: bool)
        ensures
            done == alive(old(self)@, e),
            done ==> final(self)@ == with_value(old(self)@, e.handle, c),
            !done ==> final(self)@ == old(self)@,
    {
        self.entities.set(e.handle, c)
    }

    /// Turns the walker `e` to `d`. Says whether `e` is a walker.
    pub fn set_direction(&mut self, e: EntityId, d: Direction) -> (done: bool)
        ensures
            done == (alive(old(self)@, e) && components_of(old(self)@, e).walker is Some),
            final(self)@ == with_direction(old(self)@, e, d),
            same_colliders(old(self)@, final(self)@),
    {
        let found = match self.entities.get(e.handle) {
            Some(c) => Some(*c),
            None => None,
        };
        match found {
            Some(c) => match c.walker {
                Some(_) => {
                    self.entities.set(
                        e.handle,
                        Components { walker: Some(Walker { direction: d }), ..c },
                    );
                    true
                },
                None => {
                    assert(self@ =~= with_direction(self@, e, d));
                    false
                },
            },
            None => false,
        }
    }

    /// Destroys the entity `e` and removes its collider from the physics
    /// world at once. Says whether `e` lived.
    pub fn destroy(&mut self, e: EntityId, physics: &mut PhysicsAdapter) -> (done: bool)
        ensures
            done == alive(old(self)@, e),
            final(self)@ == without(old(self)@, e.handle),
            final(physics)@ == released(old(physics)@, old(self)@, e),
            old(physics)@.sound() ==> final(physics)@.sound(),
            tied(old(self)@, old(physics)@) ==> tied(final(self)@, final(physics)@),
    {
        proof {
            self.lemma_fits();
            if tied(old(self)@, old(physics)@) {
                lemma_tied_after_destroy(old(self)@, old(physics)@, e);
            }
        }
        let found = match self.entities.get(e.handle) {
            Some(c) => Some(*c),
            None => None,
        };
        match found {
            Some(c) => {
                match c.collider {
                    Some(h) => {
                        physics.remove_collider(h);
                    },
                    None => {},
                }
                self.entities.remove(e.handle);
                true
            },
            None => false,
        }
    }

    /// Destroys every entity. The physics world is not touched: whoever
    /// clears the one clears the other.
    pub fn clear(&mut self)
        ensures
            final(self)@ == emptied(old(self)@),
    {
        self.entities.clear();
    }
}

} // verus!
