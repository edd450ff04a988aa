//! The system that drops direction changers and turns the walkers that
//! touch one.

use vstd::prelude::*;
use crate::command::{CommandBus, Reader, cursor_of, drain_with, unread};
use crate::components::Components;
use crate::config::PhysicsConfig;
use crate::ownership::{lemma_extended_chain, same_colliders};
use crate::intervention::{Intervention, carried_out, carry_out};
use crate::physics::PhysicsAdapter;
use crate::resolution::{resolve_direction_changes, resolved_physics, resolved_world};
use crate::world::World;

verus! {

/// Drops a direction changer on the matriarch, and resolves the direction
/// changers that are in the world.
pub struct DropDirectionChanger {
    command_reader: Option<Reader>,
}

impl View for DropDirectionChanger {
    type V = Option<nat>;

    /// The place of the system's reader, once it has subscribed.
    closed spec fn view(&self) -> Option<nat> {
        cursor_of(self.command_reader)
    }
}

impl Default for DropDirectionChanger {
    fn default() -> (s: Self)
        ensures
            s@ is None,
    {
        DropDirectionChanger { command_reader: None }
    }
}

impl DropDirectionChanger {
    /// Subscribes to the commands published from now on.
    pub fn setup(&mut self, bus: &CommandBus)
        requires
            bus.wf(),
        ensures
            final(self)@ == Some(bus.log().len()),
    {
        self.command_reader = Some(bus.subscribe());
    }

    /// Reads the commands of the tick and, if a direction changer was asked
    /// for, drops one on every matriarch that is past her grace period: a
    /// sensor of the configured size where she stands, turned by 90 degrees,
    /// which sends walkers the way opposite to hers. Then turns every walker
    /// that touches a direction changer already in the world and walks the
    /// other way, and takes its horizontal speed. Returns the entities to
    /// create at the end of the tick.
    pub fn run(
        &mut self,
        bus: &CommandBus,
        world: &mut World,
        physics: &mut PhysicsAdapter,
        config: &PhysicsConfig,
    ) -> (pending: Vec<Components>)
        requires
            bus.wf(),
            old(self)@ is Some,
        ensures
            final(self)@ == Some(bus.log().len()),
            pending@ == carried_out(
                Intervention::DirectionChanger,
                unread(bus.log(), bus.capacity(), old(self)@->0),
                old(world)@,
                *config,
                old(physics)@,
            ).pending,
            final(world)@ == resolved_world(
                old(world)@,
                carried_out(
                    Intervention::DirectionChanger,
                    unread(bus.log(), bus.capacity(), old(self)@->0),
                    old(world)@,
                    *config,
                    old(physics)@,
                ).physics,
            ),
            final(physics)@ == resolved_physics(
                old(world)@,
                carried_out(
                    Intervention::DirectionChanger,
                    unread(bus.log(), bus.capacity(), old(self)@->0),
                    old(world)@,
                    *config,
                    old(physics)@,
                ).physics,
            ),
            old(physics)@.sound() ==> final(physics)@.sound(),
            old(physics)@.extended_by(final(physics)@),
            same_colliders(old(world)@, final(world)@),
    {
        let commands = drain_with(bus, &mut self.command_reader);
        let pending = carry_out(Intervention::DirectionChanger, &commands, world, physics, config);
        let ghost dropped = physics@;
        resolve_direction_changes(world, physics);
        proof {
            lemma_extended_chain(old(physics)@, dropped, physics@);
        }
        pending
    }
}

} // verus!
