//! How entities come, age, lead and go.
//!
//! Among the walkers there is one matriarch. When she is gone, or when there
//! is none yet, the walker in the lowest slot takes over and is marked with
//! the age she has at that moment. An entity with a longest age is destroyed
//! when it has lived longer than that.

use vstd::prelude::*;
use crate::arena::{Slot, next_handle, with_value, without};
use crate::components::{Age, Components, EntityId, Matriarch};
use crate::ownership::{
    admitted, attachable, lemma_tied_after_create, lemma_tied_after_destroy,
    lemma_tied_same_colliders, same_colliders, tied,
};
use crate::physics::{PhysicsAdapter, PhysicsView};
use crate::search::{
    count_such, first_such, lemma_count_alike, lemma_count_none, lemma_count_one,
    lemma_first_such, lemma_first_such_is,
};
use crate::stats::{SpawnStats, bumped};
use crate::world::{Entities, World, alive, components_of, entity_in, released};

verus! {

/// Whether a walker lives in the slot.
pub open spec fn is_walker(slot: Slot<Components>) -> bool {
    slot.value matches Some(c) && c.walker is Some
}

/// Whether the entity in the slot bears the mark of the matriarch.
pub open spec fn is_matriarch(slot: Slot<Components>) -> bool {
    slot.value matches Some(c) && c.matriarch is Some
}

/// Whether a walker with the mark of the matriarch lives in the slot.
pub open spec fn leads(slot: Slot<Components>) -> bool {
    is_walker(slot) && is_matriarch(slot)
}

/// The number of walkers that live.
pub open spec fn walker_count(slots: Entities) -> nat {
    count_such(slots, |s: Slot<Components>| is_walker(s))
}

/// The number of entities that bear the mark of the matriarch.
pub open spec fn matriarch_count(slots: Entities) -> nat {
    count_such(slots, |s: Slot<Components>| is_matriarch(s))
}

/// The slot of the walker that leads from now on: the first walker that has
/// the mark already, or else the first walker. The number of slots where
/// there is no walker.
pub open spec fn leader_slot(slots: Entities) -> int {
    let marked = first_such(slots, |s: Slot<Components>| leads(s));
    if marked < slots.len() {
        marked
    } else {
        first_such(slots, |s: Slot<Components>| is_walker(s))
    }
}

/// The age of an entity; zero for one that has no age.
pub open spec fn age_of(c: Components) -> u64 {
    match c.age {
        Some(a) => a.millis,
        None => 0,
    }
}

/// What the entity carries after the leader was determined: the leader has
/// the mark, from now if she had none, and nobody else has it.
pub open spec fn promoted_components(c: Components, leader: bool) -> Components {
    Components {
        matriarch: if leader {
            match c.matriarch {
                Some(m) => Some(m),
                None => Some(Matriarch { age_when_promoted: age_of(c) }),
            }
        } else {
            None
        },
        ..c
    }
}

/// The slot after the leader was determined.
pub open spec fn promoted_slot(slot: Slot<Components>, leader: bool) -> Slot<Components> {
    match slot.value {
        Some(c) => Slot { generation: slot.generation, value: Some(promoted_components(c, leader)) },
        None => slot,
    }
}

/// The entities after the leader was determined.
pub open spec fn promoted(slots: Entities) -> Entities {
    Seq::new(slots.len(), |i: int| promoted_slot(slots[i], i == leader_slot(slots)))
}

/// `millis` and `dt` more, or the longest time that can be told.
pub open spec fn later(millis: u64, dt: u32) -> u64 {
    if millis + dt > u64::MAX {
        u64::MAX
    } else {
        (millis + dt) as u64
    }
}

/// Whether the entity has lived longer than it may, `dt` milliseconds from
/// now.
pub open spec fn expired(c: Components, dt: u32) -> bool {
    &&& c.age matches Some(a)
    &&& a.max matches Some(max)
    &&& later(a.millis, dt) > max
}

/// What the entity carries `dt` milliseconds from now.
pub open spec fn aged(c: Components, dt: u32) -> Components {
    match c.age {
        Some(a) => Components { age: Some(Age { millis: later(a.millis, dt), max: a.max }), ..c },
        None => c,
    }
}

/// The slot `dt` milliseconds from now: its entity is older, or gone if it
/// has lived longer than it may.
pub open spec fn aged_slot(slot: Slot<Components>, dt: u32) -> Slot<Components> {
    match slot.value {
        Some(c) => if expired(c, dt) {
            Slot { generation: slot.generation, value: None }
        } else {
            Slot { generation: slot.generation, value: Some(aged(c, dt)) }
        },
        None => slot,
    }
}

/// The entities `dt` milliseconds from now.
pub open spec fn all_aged(slots: Entities, dt: u32) -> Entities {
    Seq::new(slots.len(), |i: int| aged_slot(slots[i], dt))
}

/// The physics world after the colliders of the entities that expire among
/// the first `n` slots were removed.
pub open spec fn outlived(p: PhysicsView, slots: Entities, dt: u32, n: int) -> PhysicsView
    decreases n,
{
    if n <= 0 {
        p
    } else {
        let before = outlived(p, slots, dt, n - 1);
        match slots[n - 1].value {
            Some(c) => if expired(c, dt) {
                match c.collider {
                    Some(h) => before.without_collider(h),
                    None => before,
                }
            } else {
                before
            },
            None => before,
        }
    }
}

/// The entities among the first `n` slots that have lived longer than they
/// may, `dt` milliseconds from now, in the order of the slots.
pub open spec fn expiring(slots: Entities, dt: u32, n: int) -> Seq<EntityId>
    decreases n,
{
    if n <= 0 {
        Seq::empty()
    } else {
        let before = expiring(slots, dt, n - 1);
        match slots[n - 1].value {
            Some(c) => if expired(c, dt) {
                before.push(entity_in(slots, n - 1))
            } else {
                before
            },
            None => before,
        }
    }
}

/// The entities and the physics world after entities were created.
pub struct Flushed {
    pub world: Entities,
    pub physics: PhysicsView,
}

/// The entities and the physics world after the first `n` of `pending` were
/// created, each with its collider attached to it. A collider that is gone,
/// or that another entity owns, is not attached: the entity is created
/// without it.
pub open spec fn flushed(slots: Entities, p: PhysicsView, pending: Seq<Components>, n: int) -> Flushed
    decreases n,
{
    if n <= 0 {
        Flushed { world: slots, physics: p }
    } else {
        let before = flushed(slots, p, pending, n - 1);
        let c = pending[n - 1];
        let e = EntityId { handle: next_handle(before.world) };
        Flushed {
            world: with_value(before.world, e.handle, admitted(before.physics, c)),
            physics: if attachable(before.physics, c) {
                before.physics.attached(c.collider->0, e)
            } else {
                before.physics
            },
        }
    }
}

/// Determines the matriarch. A walker that has the mark keeps it; if there
/// are several, the one in the lowest slot. If no walker has it, the walker
/// in the lowest slot gets it, with her age of this moment. Every other
/// entity loses the mark. Returns the matriarch, if there is a walker at
/// all.
pub fn promote(world: &mut World) -> (leader: Option<EntityId>)
    ensures
        final(world)@ == promoted(old(world)@),
        leader is Some <==> leader_slot(old(world)@) < old(world)@.len(),
        leader matches Some(e) ==> e == entity_in(old(world)@, leader_slot(old(world)@)) && alive(
            final(world)@,
            e,
        ),
        matriarch_count(final(world)@) == if walker_count(final(world)@) >= 1 {
            1nat
        } else {
            0nat
        },
        walker_count(final(world)@) == walker_count(old(world)@),
        same_colliders(old(world)@, final(world)@),
{
    let n = world.slot_count();
    let mut first_marked: Option<usize> = None;
    let mut first_walker: Option<usize> = None;
    let mut i: usize = 0;
    while i < n
        invariant
            n == world@.len(),
            world@ == old(world)@,
            i <= n,
            first_marked matches Some(a) ==> a < i && leads(world@[a as int]) && forall|j: int|
                0 <= j < a ==> !leads(#[trigger] world@[j]),
            first_marked is None ==> forall|j: int| 0 <= j < i ==> !leads(#[trigger] world@[j]),
            first_walker matches Some(a) ==> a < i && is_walker(world@[a as int]) && forall|j: int|
                0 <= j < a ==> !is_walker(#[trigger] world@[j]),
            first_walker is None ==> forall|j: int| 0 <= j < i ==> !is_walker(#[trigger] world@[j]),
        decreases n - i,
    {
        match world.entity_at(i) {
            Some((_, c)) => {
                if c.walker.is_some() {
                    if first_walker.is_none() {
                        first_walker = Some(i);
                    }
                    if c.matriarch.is_some() && first_marked.is_none() {
                        first_marked = Some(i);
                    }
                }
            },
            None => {},
        }
        i += 1;
    }
    let k: usize = match first_marked {
        Some(a) => a,
        None => match first_walker {
            Some(a) => a,
            None => n,
        },
    };
    proof {
        let slots = old(world)@;
        match first_marked {
            Some(a) => {
                lemma_first_such_is(slots, |s: Slot<Components>| leads(s), a as int);
            },
            None => {
                lemma_first_such_is(slots, |s: Slot<Components>| leads(s), n as int);
                match first_walker {
                    Some(a) => {
                        lemma_first_such_is(slots, |s: Slot<Components>| is_walker(s), a as int);
                    },
                    None => {
                        lemma_first_such_is(slots, |s: Slot<Components>| is_walker(s), n as int);
                    },
                }
            },
        }
        assert(k == leader_slot(slots));
    }
    let mut leader: Option<EntityId> = None;
    let mut i: usize = 0;
    while i < n
        invariant
            n == world@.len(),
            n == old(world)@.len(),
            i <= n,
            k == leader_slot(old(world)@),
            k < n ==> is_walker(old(world)@[k as int]),
            forall|j: int| 0 <= j < i ==> #[trigger] world@[j] == promoted_slot(old(world)@[j], j == k),
            forall|j: int| i <= j < n ==> #[trigger] world@[j] == old(world)@[j],
            leader is Some <==> k < i,
            leader matches Some(e) ==> e == entity_in(old(world)@, k as int),
        decreases n - i,
    {
        match world.entity_at(i) {
            Some((e, c)) => {
                let matriarch = if i == k {
                    leader = Some(e);
                    match c.matriarch {
                        Some(m) => Some(m),
                        None => Some(
                            Matriarch {
                                age_when_promoted: match c.age {
                                    Some(a) => a.millis,
                                    None => 0,
                                },
                            },
                        ),
                    }
                } else {
                    None
                };
                world.replace(e, Components { matriarch, ..c });
            },
            None => {},
        }
        i += 1;
    }
    proof {
        assert(world@ =~= promoted(old(world)@));
        lemma_one_matriarch(old(world)@);
    }
    leader
}

/// Lets `dt` milliseconds pass for every entity that has an age, and
/// destroys those that have lived longer than they may, each with its
/// collider. Returns the entities that were destroyed, in the order of
/// their slots.
pub fn advance_ages(world: &mut World, physics: &mut PhysicsAdapter, dt: u32) -> (gone: Vec<EntityId>)
    ensures
        final(world)@ == all_aged(old(world)@, dt),
        final(physics)@ == outlived(old(physics)@, old(world)@, dt, old(world)@.len() as int),
        gone@ == expiring(old(world)@, dt, old(world)@.len() as int),
        old(physics)@.sound() ==> final(physics)@.sound(),
        tied(old(world)@, old(physics)@) ==> tied(final(world)@, final(physics)@),
{
    let mut gone: Vec<EntityId> = Vec::new();
    let n = world.slot_count();
    let mut i: usize = 0;
    while i < n
        invariant
            n == world@.len(),
            n == old(world)@.len(),
            i <= n,
            forall|j: int| 0 <= j < i ==> #[trigger] world@[j] == aged_slot(old(world)@[j], dt),
            forall|j: int| i <= j < n ==> #[trigger] world@[j] == old(world)@[j],
            physics@ == outlived(old(physics)@, old(world)@, dt, i as int),
            gone@ == expiring(old(world)@, dt, i as int),
            old(physics)@.sound() ==> physics@.sound(),
            tied(old(world)@, old(physics)@) ==> tied(world@, physics@),
        decreases n - i,
    {
        match world.entity_at(i) {
            Some((e, c)) => {
                match c.age {
                    Some(a) => {
                        let millis = a.millis.saturating_add(dt as u64);
                        let over = match a.max {
                            Some(max) => millis > max,
                            None => false,
                        };
                        if over {
                            world.destroy(e, physics);
                            gone.push(e);
                        } else {
                            let ghost before = world@;
                            world.replace(e, Components { age: Some(Age { millis, max: a.max }), ..c });
                            proof {
                                if tied(before, physics@) {
                                    lemma_tied_same_colliders(before, world@, physics@);
                                }
                            }
                        }
                    },
                    None => {},
                }
            },
            None => {},
        }
        i += 1;
    }
    assert(world@ =~= all_aged(old(world)@, dt));
    gone
}

/// Creates the entities that the systems of the tick have asked for, in
/// order, and attaches to each the collider that was made for it. A collider
/// that is gone, or that another entity owns, is not attached: the entity is
/// created without it.
pub fn flush(world: &mut World, physics: &mut PhysicsAdapter, pending: &Vec<Components>) -> (created:
    Vec<EntityId>)
    ensures
        final(world)@ == flushed(old(world)@, old(physics)@, pending@, pending@.len() as int).world,
        final(physics)@ == flushed(
            old(world)@,
            old(physics)@,
            pending@,
            pending@.len() as int,
        ).physics,
        created@.len() == pending@.len(),
        old(physics)@.sound() ==> final(physics)@.sound(),
        tied(old(world)@, old(physics)@) ==> tied(final(world)@, final(physics)@),
        forall|k: int|
            0 <= k < pending@.len() ==> (#[trigger] created@[k]).handle == next_handle(
                flushed(old(world)@, old(physics)@, pending@, k).world,
            ),
{
    let mut created: Vec<EntityId> = Vec::new();
    let n = pending.len();
    let mut i: usize = 0;
    while i < n
        invariant
            n == pending@.len(),
            i <= n,
            world@ == flushed(old(world)@, old(physics)@, pending@, i as int).world,
            physics@ == flushed(old(world)@, old(physics)@, pending@, i as int).physics,
            created@.len() == i,
            old(physics)@.sound() ==> physics@.sound(),
            tied(old(world)@, old(physics)@) ==> tied(world@, physics@),
            forall|k: int|
                0 <= k < i ==> (#[trigger] created@[k]).handle == next_handle(
                    flushed(old(world)@, old(physics)@, pending@, k).world,
                ),
        decreases n - i,
    {
        let c = pending[i];
        let free = match c.collider {
            Some(h) => match physics.collider(h) {
                Some(collider) => collider.owner.is_none(),
                None => false,
            },
            None => false,
        };
        let ghost before_world = world@;
        let ghost before_physics = physics@;
        proof {
            world.lemma_fits();
        }
        let e = if free {
            let e = world.create(c);
            physics.attach(c.collider.unwrap(), e);
            e
        } else {
            world.create(Components { collider: None, ..c })
        };
        proof {
            if tied(before_world, before_physics) {
                lemma_tied_after_create(before_world, before_physics, e, c);
            }
        }
        created.push(e);
        i += 1;
    }
    created
}

/// Takes a walker that was killed out of the world and counts it. Says
/// whether `e` was a walker.
pub fn kill_walker(
    world: &mut World,
    physics: &mut PhysicsAdapter,
    stats: &mut SpawnStats,
    e: EntityId,
) -> (done: bool)
    ensures
        done == (alive(old(world)@, e) && components_of(old(world)@, e).walker is Some),
        done ==> final(world)@ == without(old(world)@, e.handle) && final(physics)@ == released(
            old(physics)@,
            old(world)@,
            e,
        ) && *final(stats) == (SpawnStats { killed: bumped(old(stats).killed), ..*old(stats) }),
        !done ==> final(world)@ == old(world)@ && final(physics)@ == old(physics)@ && *final(stats)
            == *old(stats),
        old(physics)@.sound() ==> final(physics)@.sound(),
        tied(old(world)@, old(physics)@) ==> tied(final(world)@, final(physics)@),
{
    let is_walker = match world.get(e) {
        Some(c) => c.walker.is_some(),
        None => false,
    };
    if is_walker {
        world.destroy(e, physics);
        stats.record_killed();
    }
    is_walker
}

/// Takes a walker that has left the level out of the world and counts it as
/// saved. Says whether `e` was a walker.
pub fn save_walker(
    world: &mut World,
    physics: &mut PhysicsAdapter,
    stats: &mut SpawnStats,
    e: EntityId,
) -> (done: bool)
    ensures
        done == (alive(old(world)@, e) && components_of(old(world)@, e).walker is Some),
        done ==> final(world)@ == without(old(world)@, e.handle) && final(physics)@ == released(
            old(physics)@,
            old(world)@,
            e,
        ) && *final(stats) == (SpawnStats { saved: bumped(old(stats).saved), ..*old(stats) }),
        !done ==> final(world)@ == old(world)@ && final(physics)@ == old(physics)@ && *final(stats)
            == *old(stats),
        old(physics)@.sound() ==> final(physics)@.sound(),
        tied(old(world)@, old(physics)@) ==> tied(final(world)@, final(physics)@),
{
    let is_walker = match world.get(e) {
        Some(c) => c.walker.is_some(),
        None => false,
    };
    if is_walker {
        world.destroy(e, physics);
        stats.record_saved();
    }
    is_walker
}

/// After the leader was determined there is exactly one matriarch if there
/// is a walker, and none if there is not; the walkers are those there were.
pub proof fn lemma_one_matriarch(slots: Entities)
    ensures
        matriarch_count(promoted(slots)) == if walker_count(slots) >= 1 {
            1nat
        } else {
            0nat
        },
        walker_count(promoted(slots)) == walker_count(slots),
        leader_slot(slots) < slots.len() ==> is_walker(slots[leader_slot(slots)]),
        0 <= leader_slot(slots) <= slots.len(),
{
    let after = promoted(slots);
    let walks = |s: Slot<Components>| is_walker(s);
    let marked = |s: Slot<Components>| is_matriarch(s);
    let k = leader_slot(slots);
    lemma_first_such(slots, |s: Slot<Components>| leads(s));
    lemma_first_such(slots, walks);
    lemma_count_none(slots, walks);
    assert forall|j: int| 0 <= j < slots.len() implies (walks(#[trigger] slots[j]) <==> walks(
        after[j],
    )) by {}
    lemma_count_alike(slots, walks, after, walks);
    if k < slots.len() {
        assert(is_walker(slots[k]));
        assert forall|j: int| 0 <= j < after.len() implies (marked(#[trigger] after[j]) <==> j == k) by {}
        lemma_count_one(after, marked, k);
    } else {
        assert forall|j: int| 0 <= j < after.len() implies !marked(#[trigger] after[j]) by {}
        lemma_count_none(after, marked);
    }
}

} // verus!
