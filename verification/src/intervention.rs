//! What the player drops on the matriarch.
//!
//! A command is carried out on every matriarch that has led for at least the
//! grace period. A matriarch who took over more recently than that is left
//! alone: the command was most likely meant for the one before her. What is
//! dropped becomes an entity of its own at the end of the tick; its collider
//! is in the physics world at once. The matriarch herself is never changed.

use vstd::prelude::*;
use crate::arena::{Slot, next_handle};
use crate::command::Command;
use crate::components::{
    Age, BodyHandle, ChangeDirection, ColliderHandle, Components, ConstantVelocity, LaunchArea,
    Shape, Solid, Sprite,
};
use crate::config::PhysicsConfig;
use crate::direction::Direction;
use crate::geometry::{Vec2, Vec3, clamp_i32, half, half_of};
use crate::ownership::lemma_extended_chain;
use crate::physics::{ColliderKind, PhysicsAdapter, PhysicsView, dynamic_box, plain_box, resting};
use crate::search::count_such;
use crate::world::{Entities, World};

verus! {

/// Half the width and half the height of a ram.
pub const RAM_HALF_EXTENT: i32 = 20_000;

/// The rotation of a direction changer, in degrees.
pub const DIRECTION_CHANGER_ROTATION: i32 = 90;

/// The number of sides of the cone that stands for a direction changer.
pub const DIRECTION_CHANGER_SIDES: u32 = 10;

/// The scale of that cone, along each axis.
pub const DIRECTION_CHANGER_SCALE: i32 = 2_000;

/// What can be dropped.
#[derive(Clone, Copy, Debug, PartialEq, Eq, Structural)]
pub enum Intervention {
    Lift,
    Ram,
    DirectionChanger,
}

impl Intervention {
    /// The command that asks for this intervention.
    pub open spec fn spec_command(self) -> Command {
        match self {
            Intervention::Lift => Command::DropLift,
            Intervention::Ram => Command::DropRam,
            Intervention::DirectionChanger => Command::DropDirectionChanger,
        }
    }

    /// The command that asks for this intervention.
    #[verifier::when_used_as_spec(spec_command)]
    pub fn command(self) -> (c: Command)
        ensures
            c == self.spec_command(),
    {
        match self {
            Intervention::Lift => Command::DropLift,
            Intervention::Ram => Command::DropRam,
            Intervention::DirectionChanger => Command::DropDirectionChanger,
        }
    }
}

/// Whether `wanted` is among `commands`.
pub fn any_command(commands: &Vec<Command>, wanted: Command) -> (found: bool)
    ensures
        found == commands@.contains(wanted),
{
    let n = commands.len();
    let mut i: usize = 0;
    while i < n
        invariant
            n == commands@.len(),
            i <= n,
            forall|j: int| 0 <= j < i ==> commands@[j] != wanted,
        decreases n - i,
    {
        if commands[i] == wanted {
            assert(commands@[i as int] == wanted);
            return true;
        }
        i += 1;
    }
    false
}

/// Whether the entity is a matriarch that a command can be meant for: a
/// walker with the mark of the matriarch, a position and an age.
pub open spec fn is_leader(c: Components) -> bool {
    c.matriarch is Some && c.walker is Some && c.position is Some && c.age is Some
}

/// Whether the matriarch has led for at least the grace period.
pub open spec fn past_grace(c: Components, grace: u64) -> bool {
    c.age->0.millis - c.matriarch->0.age_when_promoted >= grace
}

/// Whether a command is carried out on the entity in this slot.
pub open spec fn targeted(slot: Slot<Components>, grace: u64) -> bool {
    slot.value matches Some(c) && is_leader(c) && past_grace(c, grace)
}

/// Tells the slots on whose entity a command is carried out.
pub open spec fn targets(grace: u64) -> spec_fn(Slot<Components>) -> bool {
    |slot: Slot<Components>| targeted(slot, grace)
}

/// The place of an entity in the plane of the physics.
pub open spec fn ground(position: Vec3) -> Vec2 {
    Vec2 { x: position.x, y: position.y }
}

/// The constant velocity of a ram dropped on a matriarch that walks in
/// `direction`: the configured speed, to the side she walks to.
pub open spec fn ram_velocity(config: PhysicsConfig, direction: Direction) -> ConstantVelocity {
    ConstantVelocity {
        linear: Vec2 {
            x: clamp_i32(config.ram_velocity.x * direction.spec_sign()) as i32,
            y: config.ram_velocity.y,
        },
        angular: 0,
    }
}

/// The physics world after `kind` was dropped on the matriarch `m`.
pub open spec fn physics_after_drop(
    kind: Intervention,
    m: Components,
    config: PhysicsConfig,
    p: PhysicsView,
) -> PhysicsView {
    let at = ground(m.position->0);
    let collider = ColliderHandle { handle: next_handle(p.colliders) };
    match kind {
        Intervention::Lift => p.with_collider(
            collider,
            plain_box(
                ColliderKind::Sensor,
                at,
                Vec2 {
                    x: half(config.lift_width as int) as i32,
                    y: half(config.lift_height as int) as i32,
                },
                0,
            ),
        ),
        Intervention::Ram => {
            let body = BodyHandle { handle: next_handle(p.bodies) };
            p.with_body(body, resting()).with_collider(
                collider,
                dynamic_box(
                    at,
                    Vec2 { x: RAM_HALF_EXTENT, y: RAM_HALF_EXTENT },
                    0,
                    config.ram_density,
                    body,
                ),
            )
        },
        Intervention::DirectionChanger => p.with_collider(
            collider,
            plain_box(
                ColliderKind::Sensor,
                at,
                Vec2 {
                    x: half(config.change_direction_width as int) as i32,
                    y: half(config.change_direction_height as int) as i32,
                },
                DIRECTION_CHANGER_ROTATION,
            ),
        ),
    }
}

/// The entity that comes of dropping `kind` on the matriarch `m`, with the
/// collider that was made for it in the physics world `p`.
pub open spec fn dropped_entity(
    kind: Intervention,
    m: Components,
    config: PhysicsConfig,
    p: PhysicsView,
) -> Components {
    let collider = ColliderHandle { handle: next_handle(p.colliders) };
    match kind {
        Intervention::Lift => Components {
            launch_area: Some(LaunchArea { direction: m.walker->0.direction }),
            sprite: Some(Sprite::Lift),
            collider: Some(collider),
            ..Components::nothing()
        },
        Intervention::Ram => Components {
            collider: Some(collider),
            age: Some(Age { millis: 0, max: Some(config.ram_life) }),
            constant_velocity: Some(ram_velocity(config, m.walker->0.direction)),
            color: m.color,
            shape: m.shape,
            ..Components::nothing()
        },
        Intervention::DirectionChanger => Components {
            shape: Some(
                Shape {
                    solid: Solid::Cone(DIRECTION_CHANGER_SIDES),
                    scale: Vec3 {
                        x: DIRECTION_CHANGER_SCALE,
                        y: DIRECTION_CHANGER_SCALE,
                        z: DIRECTION_CHANGER_SCALE,
                    },
                },
            ),
            position: m.position,
            collider: Some(collider),
            change_direction: Some(
                ChangeDirection { direction: m.walker->0.direction.spec_reversed() },
            ),
            ..Components::nothing()
        },
    }
}

/// What a system leaves behind: the physics world as it is now, and the
/// entities to create at the end of the tick, in order.
pub struct Dropped {
    pub physics: PhysicsView,
    pub pending: Seq<Components>,
}

/// What comes of dropping `kind` on the matriarchs among the first `n`
/// slots, in the order of the slots.
pub open spec fn dropped(
    kind: Intervention,
    slots: Entities,
    config: PhysicsConfig,
    p: PhysicsView,
    n: int,
) -> Dropped
    decreases n,
{
    if n <= 0 {
        Dropped { physics: p, pending: Seq::empty() }
    } else {
        let before = dropped(kind, slots, config, p, n - 1);
        if targeted(slots[n - 1], config.matriarch_grace_period) {
            let m = slots[n - 1].value->0;
            Dropped {
                physics: physics_after_drop(kind, m, config, before.physics),
                pending: before.pending.push(dropped_entity(kind, m, config, before.physics)),
            }
        } else {
            before
        }
    }
}

/// What a system does with the commands it has read: where the command for
/// `kind` is among them, `kind` is dropped on the matriarchs; where it is
/// not, nothing is done.
pub open spec fn carried_out(
    kind: Intervention,
    commands: Seq<Command>,
    slots: Entities,
    config: PhysicsConfig,
    p: PhysicsView,
) -> Dropped {
    if commands.contains(kind.spec_command()) {
        dropped(kind, slots, config, p, slots.len() as int)
    } else {
        Dropped { physics: p, pending: Seq::empty() }
    }
}

/// The horizontal speed of a ram.
fn ram_speed(x: i32, direction: Direction) -> (v: i32)
    ensures
        v == clamp_i32(x * direction.spec_sign()),
{
    match direction {
        Direction::Right => x,
        Direction::Left => if x == i32::MIN {
            i32::MAX
        } else {
            -x
        },
    }
}

/// Drops `kind` on one matriarch.
fn drop_on(kind: Intervention, m: &Components, config: &PhysicsConfig, physics: &mut PhysicsAdapter)
    -> (entity: Components)
    requires
        is_leader(*m),
    ensures
        final(physics)@ == physics_after_drop(kind, *m, *config, old(physics)@),
        entity == dropped_entity(kind, *m, *config, old(physics)@),
        old(physics)@.sound() ==> final(physics)@.sound(),
        old(physics)@.extended_by(final(physics)@),
{
    let position = m.position.unwrap();
    let direction = m.walker.unwrap().direction;
    let at = Vec2 { x: position.x, y: position.y };
    match kind {
        Intervention::Lift => {
            let sensor = physics.create_sensor_box(
                at,
                Vec2 { x: half_of(config.lift_width), y: half_of(config.lift_height) },
                0,
            );
            Components {
                launch_area: Some(LaunchArea { direction }),
                sprite: Some(Sprite::Lift),
                collider: Some(sensor),
                ..Components::empty()
            }
        },
        Intervention::Ram => {
            let (_body, collider) = physics.create_dynamic_box(
                at,
                Vec2 { x: RAM_HALF_EXTENT, y: RAM_HALF_EXTENT },
                0,
                config.ram_density,
            );
            Components {
                collider: Some(collider),
                age: Some(Age { millis: 0, max: Some(config.ram_life) }),
                constant_velocity: Some(
                    ConstantVelocity {
                        linear: Vec2 {
                            x: ram_speed(config.ram_velocity.x, direction),
                            y: config.ram_velocity.y,
                        },
                        angular: 0,
                    },
                ),
                color: m.color,
                shape: m.shape,
                ..Components::empty()
            }
        },
        Intervention::DirectionChanger => {
            let sensor = physics.create_sensor_box(
                at,
                Vec2 {
                    x: half_of(config.change_direction_width),
                    y: half_of(config.change_direction_height),
                },
                DIRECTION_CHANGER_ROTATION,
            );
            Components {
                shape: Some(
                    Shape {
                        solid: Solid::Cone(DIRECTION_CHANGER_SIDES),
                        scale: Vec3 {
                            x: DIRECTION_CHANGER_SCALE,
                            y: DIRECTION_CHANGER_SCALE,
                            z: DIRECTION_CHANGER_SCALE,
                        },
                    },
                ),
                position: m.position,
                collider: Some(sensor),
                change_direction: Some(ChangeDirection { direction: direction.reversed() }),
                ..Components::empty()
            }
        },
    }
}

/// Whether a command is carried out on the entity that carries `c`.
pub fn is_target(c: &Components, grace: u64) -> (b: bool)
    ensures
        b == (is_leader(*c) && past_grace(*c, grace)),
{
    match (c.matriarch, c.walker, c.position, c.age) {
        (Some(m), Some(_), Some(_), Some(a)) => a.millis >= m.age_when_promoted && a.millis
            - m.age_when_promoted >= grace,
        _ => false,
    }
}

/// Drops `kind` on every matriarch that has led for at least the grace
/// period, in the order of the slots, and returns the entities to create.
pub fn drop_on_matriarchs(
    kind: Intervention,
    world: &World,
    physics: &mut PhysicsAdapter,
    config: &PhysicsConfig,
) -> (pending: Vec<Components>)
    ensures
        final(physics)@ == dropped(
            kind,
            world@,
            *config,
            old(physics)@,
            world@.len() as int,
        ).physics,
        pending@ == dropped(kind, world@, *config, old(physics)@, world@.len() as int).pending,
        old(physics)@.sound() ==> final(physics)@.sound(),
        old(physics)@.extended_by(final(physics)@),
{
    let mut pending: Vec<Components> = Vec::new();
    let n = world.slot_count();
    let mut i: usize = 0;
    proof {
        lemma_extended_chain(physics@, physics@, physics@);
    }
    while i < n
        invariant
            n == world@.len(),
            i <= n,
            physics@ == dropped(kind, world@, *config, old(physics)@, i as int).physics,
            pending@ == dropped(kind, world@, *config, old(physics)@, i as int).pending,
            old(physics)@.sound() ==> physics@.sound(),
            old(physics)@.extended_by(physics@),
        decreases n - i,
    {
        match world.entity_at(i) {
            Some((_, c)) => {
                if is_target(&c, config.matriarch_grace_period) {
                    let ghost before = physics@;
                    let entity = drop_on(kind, &c, config, physics);
                    proof {
                        lemma_extended_chain(old(physics)@, before, physics@);
                    }
                    pending.push(entity);
                }
            },
            None => {},
        }
        i += 1;
    }
    pending
}

/// Carries out the command for `kind`, if it is among `commands`.
pub fn carry_out(
    kind: Intervention,
    commands: &Vec<Command>,
    world: &World,
    physics: &mut PhysicsAdapter,
    config: &PhysicsConfig,
) -> (pending: Vec<Components>)
    ensures
        final(physics)@ == carried_out(kind, commands@, world@, *config, old(physics)@).physics,
        pending@ == carried_out(kind, commands@, world@, *config, old(physics)@).pending,
        old(physics)@.sound() ==> final(physics)@.sound(),
        old(physics)@.extended_by(final(physics)@),
{
    if any_command(commands, kind.command()) {
        drop_on_matriarchs(kind, world, physics, config)
    } else {
        proof {
            lemma_extended_chain(physics@, physics@, physics@);
        }
        Vec::new()
    }
}

/// One entity is created for every matriarch that has led for at least the
/// grace period, and none besides.
pub proof fn lemma_one_per_matriarch(
    kind: Intervention,
    slots: Entities,
    config: PhysicsConfig,
    p: PhysicsView,
    n: int,
)
    requires
        0 <= n <= slots.len(),
    ensures
        dropped(kind, slots, config, p, n).pending.len() == count_such(
            slots.take(n),
            targets(config.matriarch_grace_period),
        ),
    decreases n,
{
    if n > 0 {
        lemma_one_per_matriarch(kind, slots, config, p, n - 1);
        assert(slots.take(n).drop_last() =~= slots.take(n - 1));
        assert(slots.take(n).last() == slots[n - 1]);
    }
}

/// A command that comes while every matriarch is within her grace period
/// creates nothing and leaves the physics world as it was.
pub proof fn lemma_nothing_within_grace(
    kind: Intervention,
    slots: Entities,
    config: PhysicsConfig,
    p: PhysicsView,
    n: int,
)
    requires
        0 <= n <= slots.len(),
        forall|i: int| 0 <= i < slots.len() ==> !targeted(#[trigger] slots[i], config.matriarch_grace_period),
    ensures
        dropped(kind, slots, config, p, n).pending.len() == 0,
        dropped(kind, slots, config, p, n).physics == p,
    decreases n,
{
    if n > 0 {
        lemma_nothing_within_grace(kind, slots, config, p, n - 1);
    }
}

/// A system creates one entity for every matriarch that has led for at
/// least the grace period if its command has come, and none if it has not.
pub proof fn lemma_carried_out_count(
    kind: Intervention,
    commands: Seq<Command>,
    slots: Entities,
    config: PhysicsConfig,
    p: PhysicsView,
)
    ensures
        carried_out(kind, commands, slots, config, p).pending.len() == if commands.contains(
            kind.spec_command(),
        ) {
            count_such(slots, targets(config.matriarch_grace_period))
        } else {
            0
        },
{
    lemma_one_per_matriarch(kind, slots, config, p, slots.len() as int);
    assert(slots.take(slots.len() as int) =~= slots);
}

} // verus!
