//! The system that drops lifts.

use vstd::prelude::*;
use crate::command::{CommandBus, Reader, cursor_of, drain_with, unread};
use crate::components::Components;
use crate::config::PhysicsConfig;
use crate::intervention::{Intervention, carried_out, carry_out};
use crate::physics::PhysicsAdapter;
use crate::world::World;

verus! {

/// Drops a lift sensor on the matriarch.
pub struct DropLift {
    command_reader: Option<Reader>,
}

impl View for DropLift {
    type V = Option<nat>;

    /// The place of the system's reader, once it has subscribed.
    closed spec fn view(&self) -> Option<nat> {
        cursor_of(self.command_reader)
    }
}

impl Default for DropLift {
    fn default() -> (s: Self)
        ensures
            s@ is None,
    {
        DropLift { command_reader: None }
    }
}

impl DropLift {
    /// Subscribes to the commands published from now on.
    pub fn setup(&mut self, bus: &CommandBus)
        requires
            bus.wf(),
        ensures
            final(self)@ == Some(bus.log().len()),
    {
        self.command_reader = Some(bus.subscribe());
    }

    /// Reads the commands of the tick and, if a lift was asked for, drops one
    /// on every matriarch that is past her grace period: a sensor of the
    /// configured size where she stands, which launches in the direction she
    /// walks. Returns the entities to create at the end of the tick.
    pub fn run(
        &mut self,
        bus: &CommandBus,
        world: &World,
        physics: &mut PhysicsAdapter,
        config: &PhysicsConfig,
    ) -> (pending: Vec<Components>)
        requires
            bus.wf(),
            old(self)@ is Some,
        ensures
            final(self)@ == Some(bus.log().len()),
            final(physics)@ == carried_out(
                Intervention::Lift,
                unread(bus.log(), bus.capacity(), old(self)@->0),
                world@,
                *config,
                old(physics)@,
            ).physics,
            pending@ == carried_out(
                Intervention::Lift,
                unread(bus.log(), bus.capacity(), old(self)@->0),
                world@,
                *config,
                old(physics)@,
            ).pending,
            old(physics)@.sound() ==> final(physics)@.sound(),
            old(physics)@.extended_by(final(physics)@),
    {
        let commands = drain_with(bus, &mut self.command_reader);
        carry_out(Intervention::Lift, &commands, world, physics, config)
    }
}

} // verus!
