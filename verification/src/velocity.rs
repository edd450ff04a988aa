//! The system that keeps some bodies at a constant velocity.

use vstd::prelude::*;
use crate::components::Components;
use crate::ownership::lemma_extended_chain;
use crate::physics::{PhysicsAdapter, PhysicsView};
use crate::world::{Entities, World};

verus! {

/// The physics world after the body of an entity that carries `c` was given
/// its constant velocity. Nothing changes for an entity without such a
/// velocity, without a collider, or whose collider has no body.
pub open spec fn driven_one(p: PhysicsView, c: Components) -> PhysicsView {
    match (c.constant_velocity, c.collider) {
        (Some(v), Some(h)) => match p.body_of(h) {
            Some(b) => p.with_velocity(b, v.linear, v.angular),
            None => p,
        },
        _ => p,
    }
}

/// The physics world after the entities in the first `n` slots were given
/// their constant velocities.
pub open spec fn driven(p: PhysicsView, slots: Entities, n: int) -> PhysicsView
    decreases n,
{
    if n <= 0 {
        p
    } else {
        let before = driven(p, slots, n - 1);
        match slots[n - 1].value {
            Some(c) => driven_one(before, c),
            None => before,
        }
    }
}

/// Gives every body its constant velocity again, whatever the physics made
/// of it since the last tick.
pub fn apply_constant_velocities(world: &World, physics: &mut PhysicsAdapter)
    ensures
        final(physics)@ == driven(old(physics)@, world@, world@.len() as int),
        old(physics)@.sound() ==> final(physics)@.sound(),
        old(physics)@.extended_by(final(physics)@),
{
    let n = world.slot_count();
    let mut i: usize = 0;
    proof {
        lemma_extended_chain(physics@, physics@, physics@);
    }
    while i < n
        invariant
            n == world@.len(),
            i <= n,
            physics@ == driven(old(physics)@, world@, i as int),
            old(physics)@.sound() ==> physics@.sound(),
            old(physics)@.extended_by(physics@),
        decreases n - i,
    {
        match world.entity_at(i) {
            Some((_, c)) => match (c.constant_velocity, c.collider) {
                (Some(v), Some(h)) => match physics.body_of(h) {
                    Some(b) => {
                        let ghost before = physics@;
                        physics.set_velocity(b, v.linear, v.angular);
                        proof {
                            lemma_extended_chain(old(physics)@, before, physics@);
                        }
                    },
                    None => {},
                },
                _ => {},
            },
            None => {},
        }
        i += 1;
    }
}

} // verus!
