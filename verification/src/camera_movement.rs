//! The system that moves the camera.
//!
//! The camera follows the matriarch, looking a little ahead of her. Once a
//! walker was saved it goes to the position that the settings give for the
//! end of the level, if they give one. With nothing to follow it stays where
//! it is.
//!
//! On every tick the camera covers a share of the way that is left: the
//! time that passed times the convergence speed. The step is rounded away
//! from zero, so that the camera never stops short of where it is going.

use vstd::prelude::*;
use crate::arena::Slot;
use crate::command::{Command, CommandBus, Reader, cursor_of, drain_with, unread};
use crate::components::Components;
use crate::config::CameraConfig;
use crate::direction::Direction;
use crate::ownership::same_colliders;
use crate::geometry::{Vec3, clamp_i32, saturate_i32};
use crate::stats::SpawnStats;
use crate::world::{Entities, World};

verus! {

/// The product of a time in milliseconds and a speed in thousandths per
/// second counts millionths.
pub const MILLIONTHS: u128 = 1_000_000;

/// The amount of the last zoom command among `commands`: of several in one
/// tick the latest wins. Zero where there is none.
pub open spec fn latest_zoom(commands: Seq<Command>) -> i32
    decreases commands.len(),
{
    if commands.len() == 0 {
        0
    } else {
        match commands.last() {
            Command::Zoom(amount) => amount,
            _ => latest_zoom(commands.drop_last()),
        }
    }
}

/// Whether the camera follows the entity: it is a matriarch that walks and
/// has a position.
pub open spec fn followed(slot: Slot<Components>) -> bool {
    slot.value matches Some(c) && c.position is Some && c.matriarch is Some && c.walker is Some
}

/// Where the camera looks for one matriarch, from left to right: `ahead` in
/// front of her.
pub open spec fn focus_x(c: Components, ahead: int) -> int {
    c.position->0.x + c.walker->0.direction.spec_sign() * ahead
}

/// The number of entities that the camera follows among the first `n`
/// slots.
pub open spec fn followed_count(slots: Entities, n: int) -> nat
    decreases n,
{
    if n <= 0 {
        0
    } else {
        followed_count(slots, n - 1) + if followed(slots[n - 1]) {
            1nat
        } else {
            0nat
        }
    }
}

/// The sum of where the camera looks, from left to right, for the entities
/// it follows among the first `n` slots.
pub open spec fn focus_sum_x(slots: Entities, ahead: int, n: int) -> int
    decreases n,
{
    if n <= 0 {
        0
    } else {
        focus_sum_x(slots, ahead, n - 1) + if followed(slots[n - 1]) {
            focus_x(slots[n - 1].value->0, ahead)
        } else {
            0
        }
    }
}

/// The sum of the heights at which the camera looks for the entities it
/// follows among the first `n` slots: `above` over each.
pub open spec fn focus_sum_y(slots: Entities, above: int, n: int) -> int
    decreases n,
{
    if n <= 0 {
        0
    } else {
        focus_sum_y(slots, above, n - 1) + if followed(slots[n - 1]) {
            slots[n - 1].value->0.position->0.y + above
        } else {
            0
        }
    }
}

/// `a / b`, rounded towards zero.
pub open spec fn quotient(a: int, b: int) -> int
    recommends
        b > 0,
{
    if a >= 0 {
        a / b
    } else {
        -((-a) / b)
    }
}

/// Where the camera is to go.
pub struct Target {
    pub at: Vec3,
    /// Whether the camera also approaches the depth of `at`. Where it does
    /// not, the depth follows the zoom.
    pub with_depth: bool,
}

/// Where the camera is to go: to the final position once a walker was saved
/// and the settings give such a position; else to the mean of the places
/// where it looks for each matriarch; nowhere if there is none.
pub open spec fn follow_target(slots: Entities, config: CameraConfig, stats: SpawnStats) -> Option<
    Target,
> {
    if stats.saved > 0 && config.final_position is Some {
        Some(Target { at: config.final_position->0, with_depth: true })
    } else {
        let n = followed_count(slots, slots.len() as int);
        if n > 0 {
            Some(
                Target {
                    at: Vec3 {
                        x: clamp_i32(
                            quotient(
                                focus_sum_x(slots, config.offset.x as int, slots.len() as int),
                                n as int,
                            ),
                        ) as i32,
                        y: clamp_i32(
                            quotient(
                                focus_sum_y(slots, config.offset.y as int, slots.len() as int),
                                n as int,
                            ),
                        ) as i32,
                        z: 0,
                    },
                    with_depth: false,
                },
            )
        } else {
            None
        }
    }
}

/// The share of `distance` that is covered at `gain` millionths, rounded
/// up.
pub open spec fn share(distance: int, gain: int) -> int {
    (distance * gain + (MILLIONTHS - 1)) / (MILLIONTHS as int)
}

/// Where a coordinate at `position` is after one step towards `target`.
pub open spec fn approach(position: int, target: int, gain: int) -> int {
    if target >= position {
        position + share(target - position, gain)
    } else {
        position - share(position - target, gain)
    }
}

/// The depth of the camera after a zoom of `zoom` thousandths of full speed
/// for `dt` milliseconds, kept within the bounds of the settings.
pub open spec fn zoomed(z: int, zoom: i32, dt: u32, config: CameraConfig) -> int {
    let moved = z + quotient(zoom * dt * config.zoom_speed, MILLIONTHS as int);
    let capped = if moved > config.z_max {
        config.z_max as int
    } else {
        moved
    };
    if capped < config.z_min {
        config.z_min as int
    } else {
        capped
    }
}

/// Where a camera at `position` is after one tick.
pub open spec fn camera_moved(
    position: Vec3,
    target: Target,
    zoom: i32,
    dt: u32,
    config: CameraConfig,
) -> Vec3 {
    let gain = dt * config.convergence_speed;
    Vec3 {
        x: clamp_i32(approach(position.x as int, target.at.x as int, gain)) as i32,
        y: clamp_i32(approach(position.y as int, target.at.y as int, gain)) as i32,
        z: if target.with_depth {
            clamp_i32(approach(position.z as int, target.at.z as int, gain)) as i32
        } else {
            zoomed(position.z as int, zoom, dt, config) as i32
        },
    }
}

/// Whether the entity in this slot is a camera that can be moved.
pub open spec fn is_camera(slot: Slot<Components>) -> bool {
    slot.value matches Some(c) && c.camera && c.position is Some
}

/// The slot after one tick of the camera system: a camera has moved,
/// anything else is as it was.
pub open spec fn moved_slot(
    slot: Slot<Components>,
    target: Target,
    zoom: i32,
    dt: u32,
    config: CameraConfig,
) -> Slot<Components> {
    if is_camera(slot) {
        let c = slot.value->0;
        Slot {
            generation: slot.generation,
            value: Some(
                Components {
                    position: Some(camera_moved(c.position->0, target, zoom, dt, config)),
                    ..c
                },
            ),
        }
    } else {
        slot
    }
}

/// The entities after one tick of the camera system.
pub open spec fn cameras_moved(
    slots: Entities,
    target: Option<Target>,
    zoom: i32,
    dt: u32,
    config: CameraConfig,
) -> Entities {
    match target {
        Some(t) => Seq::new(slots.len(), |i: int| moved_slot(slots[i], t, zoom, dt, config)),
        None => slots,
    }
}

/// The amount of the last zoom command among `commands`.
pub fn read_zoom(commands: &Vec<Command>) -> (zoom: i32)
    ensures
        zoom == latest_zoom(commands@),
{
    let mut zoom: i32 = 0;
    let n = commands.len();
    let mut i: usize = 0;
    assert(commands@.take(0) =~= Seq::<Command>::empty());
    while i < n
        invariant
            n == commands@.len(),
            i <= n,
            zoom == latest_zoom(commands@.take(i as int)),
        decreases n - i,
    {
        assert(commands@.take(i + 1).drop_last() =~= commands@.take(i as int));
        match commands[i] {
            Command::Zoom(amount) => {
                zoom = amount;
            },
            _ => {},
        }
        i += 1;
    }
    assert(commands@.take(n as int) =~= commands@);
    zoom
}

/// One step of a coordinate towards `target`.
pub fn step_towards(position: i32, target: i32, dt: u32, speed: u32) -> (r: i32)
    ensures
        r == clamp_i32(approach(position as int, target as int, dt * speed)),
{
    assert(0 <= dt * speed <= 0xffff_ffff * 0xffff_ffff) by (nonlinear_arith)
        requires
            0 <= dt <= 0xffff_ffff,
            0 <= speed <= 0xffff_ffff,
    ;
    let gain: u128 = (dt as u128) * (speed as u128);
    if target >= position {
        let distance: u128 = (target as i64 - position as i64) as u128;
        assert(distance * gain <= 0xffff_ffff * (0xffff_ffff * 0xffff_ffff)) by (nonlinear_arith)
            requires
                distance <= 0xffff_ffff,
                gain <= 0xffff_ffff * 0xffff_ffff,
        ;
        let step: u128 = (distance * gain + (MILLIONTHS - 1)) / MILLIONTHS;
        saturate_i32(position as i128 + step as i128)
    } else {
        let distance: u128 = (position as i64 - target as i64) as u128;
        assert(distance * gain <= 0xffff_ffff * (0xffff_ffff * 0xffff_ffff)) by (nonlinear_arith)
            requires
                distance <= 0xffff_ffff,
                gain <= 0xffff_ffff * 0xffff_ffff,
        ;
        let step: u128 = (distance * gain + (MILLIONTHS - 1)) / MILLIONTHS;
        saturate_i32(position as i128 - step as i128)
    }
}

/// The depth of the camera after a zoom.
pub fn zoom_depth(z: i32, zoom: i32, dt: u32, config: &CameraConfig) -> (r: i32)
    ensures
        r == zoomed(z as int, zoom, dt, *config),
{
    assert(-0x8000_0000 * 0xffff_ffff <= zoom * dt <= 0x8000_0000 * 0xffff_ffff)
        by (nonlinear_arith)
        requires
            -0x8000_0000 <= zoom <= 0x8000_0000,
            0 <= dt <= 0xffff_ffff,
    ;
    let a: i128 = (zoom as i128) * (dt as i128);
    assert(-(0x8000_0000 * 0xffff_ffff) * 0x8000_0000 <= a * config.zoom_speed <= (0x8000_0000
        * 0xffff_ffff) * 0x8000_0000) by (nonlinear_arith)
        requires
            -0x8000_0000 * 0xffff_ffff <= a <= 0x8000_0000 * 0xffff_ffff,
            -0x8000_0000 <= config.zoom_speed <= 0x8000_0000,
    ;
    let b: i128 = a * (config.zoom_speed as i128);
    let moved: i128 = z as i128 + b / 1_000_000;
    let capped: i128 = if moved > config.z_max as i128 {
        config.z_max as i128
    } else {
        moved
    };
    if capped < config.z_min as i128 {
        config.z_min
    } else {
        capped as i32
    }
}

/// Where the camera is, one tick after it was at `position`.
pub fn move_camera(position: Vec3, target: &Target, zoom: i32, dt: u32, config: &CameraConfig) -> (r:
    Vec3)
    ensures
        r == camera_moved(position, *target, zoom, dt, *config),
{
    Vec3 {
        x: step_towards(position.x, target.at.x, dt, config.convergence_speed),
        y: step_towards(position.y, target.at.y, dt, config.convergence_speed),
        z: if target.with_depth {
            step_towards(position.z, target.at.z, dt, config.convergence_speed)
        } else {
            zoom_depth(position.z, zoom, dt, config)
        },
    }
}

/// Where the camera is to go.
pub fn find_target(world: &World, config: &CameraConfig, stats: &SpawnStats) -> (r: Option<Target>)
    ensures
        r == follow_target(world@, *config, *stats),
{
    if stats.saved > 0 {
        match config.final_position {
            Some(at) => {
                return Some(Target { at, with_depth: true });
            },
            None => {},
        }
    }
    let n = world.slot_count();
    let mut sum_x: i128 = 0;
    let mut sum_y: i128 = 0;
    let mut count: usize = 0;
    let mut i: usize = 0;
    while i < n
        invariant
            n == world@.len(),
            i <= n,
            count == followed_count(world@, i as int),
            count <= i,
            sum_x == focus_sum_x(world@, config.offset.x as int, i as int),
            sum_y == focus_sum_y(world@, config.offset.y as int, i as int),
            -0x1_0000_0000 * i <= sum_x <= 0x1_0000_0000 * i,
            -0x1_0000_0000 * i <= sum_y <= 0x1_0000_0000 * i,
        decreases n - i,
    {
        match world.entity_at(i) {
            Some((_, c)) => match (c.position, c.matriarch, c.walker) {
                (Some(position), Some(_), Some(walker)) => {
                    count += 1;
                    sum_x += position.x as i128;
                    match walker.direction {
                        Direction::Right => {
                            sum_x += config.offset.x as i128;
                        },
                        Direction::Left => {
                            sum_x -= config.offset.x as i128;
                        },
                    }
                    sum_y += position.y as i128 + config.offset.y as i128;
                },
                _ => {},
            },
            None => {},
        }
        i += 1;
    }
    if count > 0 {
        Some(
            Target {
                at: Vec3 {
                    x: saturate_i32(sum_x / (count as i128)),
                    y: saturate_i32(sum_y / (count as i128)),
                    z: 0,
                },
                with_depth: false,
            },
        )
    } else {
        None
    }
}

/// Moves the camera. Tracks the matriarch, or the final position once a
/// walker was saved.
pub struct CameraMovement {
    command_reader: Option<Reader>,
}

impl View for CameraMovement {
    type V = Option<nat>;

    /// The place of the system's reader, once it has subscribed.
    closed spec fn view(&self) -> Option<nat> {
        cursor_of(self.command_reader)
    }
}

impl Default for CameraMovement {
    fn default() -> (s: Self)
        ensures
            s@ is None,
    {
        CameraMovement { command_reader: None }
    }
}

impl CameraMovement {
    /// Subscribes to the commands published from now on.
    pub fn setup(&mut self, bus: &CommandBus)
        requires
            bus.wf(),
        ensures
            final(self)@ == Some(bus.log().len()),
    {
        self.command_reader = Some(bus.subscribe());
    }

    /// Reads the commands of the tick and moves every camera one step
    /// towards where it is to go, `dt` milliseconds after the last step.
    /// With no walker saved and no matriarch to follow, nothing moves.
    pub fn run(
        &mut self,
        bus: &CommandBus,
        world: &mut World,
        config: &CameraConfig,
        stats: &SpawnStats,
        dt: u32,
    )
        requires
            bus.wf(),
            old(self)@ is Some,
        ensures
            final(self)@ == Some(bus.log().len()),
            final(world)@ == cameras_moved(
                old(world)@,
                follow_target(old(world)@, *config, *stats),
                latest_zoom(unread(bus.log(), bus.capacity(), old(self)@->0)),
                dt,
                *config,
            ),
            stats.saved == 0 && followed_count(old(world)@, old(world)@.len() as int) == 0
                ==> final(world)@ == old(world)@,
            same_colliders(old(world)@, final(world)@),
    {
        let commands = drain_with(bus, &mut self.command_reader);
        let zoom = read_zoom(&commands);
        match find_target(world, config, stats) {
            Some(target) => {
                let n = world.slot_count();
                let mut i: usize = 0;
                while i < n
                    invariant
                        n == world@.len(),
                        n == old(world)@.len(),
                        i <= n,
                        forall|j: int|
                            0 <= j < i ==> #[trigger] world@[j] == moved_slot(
                                old(world)@[j],
                                target,
                                zoom,
                                dt,
                                *config,
                            ),
                        forall|j: int| i <= j < n ==> #[trigger] world@[j] == old(world)@[j],
                    decreases n - i,
                {
                    match world.entity_at(i) {
                        Some((e, c)) => {
                            if c.camera {
                                match c.position {
                                    Some(position) => {
                                        world.replace(
                                            e,
                                            Components {
                                                position: Some(
                                                    move_camera(position, &target, zoom, dt, config),
                                                ),
                                                ..c
                                            },
                                        );
                                    },
                                    None => {},
                                }
                            }
                        },
                        None => {},
                    }
                    i += 1;
                }
                assert(world@ =~= cameras_moved(old(world)@, Some(target), zoom, dt, *config));
            },
            None => {},
        }
    }
}

/// A step towards the target ends between where it began and the target,
/// and nearer to the target than it began, as long as the time that passed
/// times the convergence speed is more than nothing and no more than one. A
/// camera that is there stays there. So the camera reaches its target, in
/// no more ticks than the way is long.
pub proof fn lemma_approach_reaches(position: int, target: int, gain: int)
    requires
        0 < gain <= MILLIONTHS,
    ensures
        position == target ==> approach(position, target, gain) == target,
        position < target ==> position < approach(position, target, gain) <= target,
        position > target ==> target <= approach(position, target, gain) < position,
{
    let d = if target >= position {
        target - position
    } else {
        position - target
    };
    lemma_share_bounds(d, gain);
}

/// The share of a way is no more than the way, and more than nothing where
/// the way is.
proof fn lemma_share_bounds(distance: int, gain: int)
    requires
        0 <= distance,
        0 < gain <= MILLIONTHS,
    ensures
        distance == 0 ==> share(distance, gain) == 0,
        distance > 0 ==> 0 < share(distance, gain) <= distance,
{
    let m = MILLIONTHS as int;
    let a = distance * gain;
    assert(0 <= a <= distance * m) by (nonlinear_arith)
        requires
            a == distance * gain,
            0 <= distance,
            0 < gain <= m,
    ;
    if distance > 0 {
        assert(a >= 1) by (nonlinear_arith)
            requires
                a == distance * gain,
                distance >= 1,
                gain >= 1,
        ;
        assert((a + (m - 1)) / m <= distance) by (nonlinear_arith)
            requires
                a <= distance * m,
                m == 1_000_000,
                0 <= a,
        ;
        assert((a + (m - 1)) / m >= 1) by (nonlinear_arith)
            requires
                a >= 1,
                m == 1_000_000,
        ;
    } else {
        assert(a == 0);
    }
}

/// A camera on its way to the final position comes nearer to it on every
/// tick along each axis on which it is not there yet, never goes past it,
/// and stays once it is there, as long as the time that passed times the
/// convergence speed is more than nothing and no more than one.
pub proof fn lemma_camera_closes_in(position: Vec3, at: Vec3, zoom: i32, dt: u32, config: CameraConfig)
    requires
        0 < dt * config.convergence_speed <= MILLIONTHS,
    ensures
        ({
            let moved = camera_moved(position, Target { at, with_depth: true }, zoom, dt, config);
            &&& closer(position.x as int, at.x as int, moved.x as int)
            &&& closer(position.y as int, at.y as int, moved.y as int)
            &&& closer(position.z as int, at.z as int, moved.z as int)
        }),
{
    let gain = dt * config.convergence_speed;
    lemma_approach_reaches(position.x as int, at.x as int, gain);
    lemma_approach_reaches(position.y as int, at.y as int, gain);
    lemma_approach_reaches(position.z as int, at.z as int, gain);
}

/// Whether a step from `from` has ended at `to` between `from` and
/// `target`, nearer to `target` unless it was there already.
pub open spec fn closer(from: int, target: int, to: int) -> bool {
    &&& from == target ==> to == target
    &&& from < target ==> from < to <= target
    &&& from > target ==> target <= to < from
}

/// Once a walker was saved and the settings give a final position, the
/// camera goes there, wherever the walkers are.
pub proof fn lemma_final_position_wins(slots: Entities, config: CameraConfig, stats: SpawnStats)
    requires
        stats.saved > 0,
        config.final_position is Some,
    ensures
        follow_target(slots, config, stats) == Some(
            Target { at: config.final_position->0, with_depth: true },
        ),
{
}

/// With no walker saved and no matriarch to follow the camera system
/// changes nothing.
pub proof fn lemma_nothing_to_follow(
    slots: Entities,
    config: CameraConfig,
    stats: SpawnStats,
    zoom: i32,
    dt: u32,
)
    requires
        stats.saved == 0,
        followed_count(slots, slots.len() as int) == 0,
    ensures
        cameras_moved(slots, follow_target(slots, config, stats), zoom, dt, config) == slots,
{
}

} // verus!
