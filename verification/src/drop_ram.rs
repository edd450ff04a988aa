//! The system that drops rams.

use vstd::prelude::*;
use crate::command::{CommandBus, Reader, cursor_of, drain_with, unread};
use crate::components::Components;
use crate::config::PhysicsConfig;
use crate::intervention::{Intervention, carried_out, carry_out};
use crate::physics::PhysicsAdapter;
use crate::world::World;

verus! {

/// Drops a ram on the matriarch. The ram looks like her, but it is an entity
/// of its own.
pub struct DropRam {
    command_reader: Option<Reader>,
}

impl View for DropRam {
    type V = Option<nat>;

    /// The place of the system's reader, once it has subscribed.
    closed spec fn view(&self) -> Option<nat> {
        cursor_of(self.command_reader)
    }
}

impl Default for DropRam {
    fn default() -> (s: Self)
        ensures
            s@ is None,
    {
        DropRam { command_reader: None }
    }
}

impl DropRam {
    /// Subscribes to the commands published from now on.
    pub fn setup(&mut self, bus: &CommandBus)
        requires
            bus.wf(),
        ensures
            final(self)@ == Some(bus.log().len()),
    {
        self.command_reader = Some(bus.subscribe());
    }

    /// Reads the commands of the tick and, if a ram was asked for, drops one
    /// on every matriarch that is past her grace period: a rigid body of the
    /// configured density where she stands, which flies at the configured
    /// speed to the side she walks to, lives as long as the settings say, and
    /// has her colour and shape. Returns the entities to create at the end of
    /// the tick.
    pub fn run(
        &mut self,
        bus: &CommandBus,
        world: &World,
        physics: &mut PhysicsAdapter,
        config: &PhysicsConfig,
    ) -> (pending: Vec<Components>)
        requires
            bus.wf(),
            old(self)@ is Some,
        ensures
            final(self)@ == Some(bus.log().len()),
            final(physics)@ == carried_out(
                Intervention::Ram,
                unread(bus.log(), bus.capacity(), old(self)@->0),
                world@,
                *config,
                old(physics)@,
            ).physics,
            pending@ == carried_out(
                Intervention::Ram,
                unread(bus.log(), bus.capacity(), old(self)@->0),
                world@,
                *config,
                old(physics)@,
            ).pending,
            old(physics)@.sound() ==> final(physics)@.sound(),
            old(physics)@.extended_by(final(physics)@),
    {
        let commands = drain_with(bus, &mut self.command_reader);
        carry_out(Intervention::Ram, &commands, world, physics, config)
    }
}

} // verus!
