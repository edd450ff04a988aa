//! The spawner of walkers.
//!
//! A spawner makes one walker whenever the time between two walkers has
//! passed, until it has made as many as it may. After each walker the time
//! to the next is drawn anew from the range of the settings, so that the
//! walkers do not come at an even pace. What is random comes from the
//! caller, as numbers that the spawner brings into range.

use vstd::prelude::*;
use crate::arena::next_handle;
use crate::components::{Age, BodyHandle, ColliderHandle, Components, Sprite, Walker};
use crate::config::{PawnConfig, SpawnerConfig};
use crate::direction::Direction;
use crate::geometry::{Vec2, Vec3, clamp_i32, half, half_of, saturate_i32};
use crate::ownership::lemma_extended_chain;
use crate::physics::{PhysicsAdapter, PhysicsView, dynamic_box, resting};
use crate::stats::{SpawnStats, bumped};

verus! {

/// The random numbers that one tick of a spawner may use.
#[derive(Clone, Copy, Debug)]
pub struct SpawnDraw {
    /// Decides how far to the right in the area the walker appears.
    pub x: u32,
    /// Decides how far up in the area the walker appears.
    pub y: u32,
    /// The direction in which the walker sets out.
    pub direction: Direction,
    /// Decides the time to the walker after this one.
    pub frequency: u32,
}

/// A place where walkers appear.
#[derive(Clone, Copy, Debug, PartialEq, Eq, Structural)]
pub struct Spawner {
    /// The lower left corner of the area in which walkers appear.
    pub position: Vec2,
    /// The extent of that area.
    pub size: Vec2,
    /// How many walkers the spawner makes in all.
    pub max_count: u64,
    /// The time between the last walker and the next, in milliseconds.
    pub frequency: u32,
    pub spawned_so_far: u64,
    /// The time since the last walker, in milliseconds.
    pub elapsed: u64,
}

/// Two spawners that spawn at different paces: the settings are wrong, since
/// only one pace can be shown to the player.
#[derive(Clone, Copy, Debug, PartialEq, Eq, Structural)]
pub struct ConflictingSpawners {
    /// The pace of the first spawner.
    pub first: u32,
    /// The pace of the first spawner that differs from it.
    pub other: u32,
}

/// A number from 0 to `extent`, decided by `raw`; 0 for an extent below
/// zero.
pub open spec fn within(raw: u32, extent: i32) -> int {
    if extent <= 0 {
        0
    } else {
        raw as int % (extent + 1)
    }
}

/// A time from `min` to `max`, decided by `raw`; `min` where the range is
/// empty.
pub open spec fn drawn_frequency(raw: u32, min: u32, max: u32) -> u32 {
    if max <= min {
        min
    } else {
        (min + raw as int % (max - min + 1)) as u32
    }
}

/// `elapsed` and `dt` more, or the longest time that can be told.
pub open spec fn waited(elapsed: u64, dt: u32) -> u64 {
    if elapsed + dt > u64::MAX {
        u64::MAX
    } else {
        (elapsed + dt) as u64
    }
}

impl Spawner {
    /// A spawner at `position` that has made no walker yet, with the time
    /// to its first walker decided by `raw_frequency`.
    pub open spec fn fresh(position: Vec2, config: SpawnerConfig, raw_frequency: u32) -> Spawner {
        Spawner {
            position,
            size: config.size,
            max_count: config.max_count,
            frequency: drawn_frequency(raw_frequency, config.frequency_min, config.frequency_max),
            spawned_so_far: 0,
            elapsed: 0,
        }
    }

    /// Whether the spawner may go on: it has not made more walkers than it
    /// may.
    pub open spec fn wf(self) -> bool {
        self.spawned_so_far <= self.max_count
    }

    /// Whether the spawner makes a walker `dt` milliseconds from now.
    pub open spec fn due(self, dt: u32) -> bool {
        self.spawned_so_far < self.max_count && waited(self.elapsed, dt) >= self.frequency
    }

    /// Where the walker appears.
    pub open spec fn spawn_position(self, draw: SpawnDraw) -> Vec2 {
        Vec2 {
            x: clamp_i32(self.position.x + within(draw.x, self.size.x)) as i32,
            y: clamp_i32(self.position.y + within(draw.y, self.size.y)) as i32,
        }
    }

    /// The spawner `dt` milliseconds from now.
    pub open spec fn ticked(self, dt: u32, draw: SpawnDraw, config: SpawnerConfig) -> Spawner {
        if self.due(dt) {
            Spawner {
                spawned_so_far: (self.spawned_so_far + 1) as u64,
                elapsed: 0,
                frequency: drawn_frequency(
                    draw.frequency,
                    config.frequency_min,
                    config.frequency_max,
                ),
                ..self
            }
        } else {
            Spawner { elapsed: waited(self.elapsed, dt), ..self }
        }
    }

    /// The physics world after the body of a walker was made.
    pub open spec fn physics_after_spawn(self, draw: SpawnDraw, pawn: PawnConfig, p: PhysicsView)
        -> PhysicsView {
        let body = BodyHandle { handle: next_handle(p.bodies) };
        let collider = ColliderHandle { handle: next_handle(p.colliders) };
        p.with_body(body, resting()).with_collider(
            collider,
            dynamic_box(
                self.spawn_position(draw),
                Vec2 { x: half(pawn.width as int) as i32, y: half(pawn.height as int) as i32 },
                0,
                pawn.density,
                body,
            ),
        )
    }

    /// The walker that is made: new-born, at its place, with its body, and
    /// setting out in the direction that was drawn.
    pub open spec fn spawned_walker(self, draw: SpawnDraw, p: PhysicsView) -> Components {
        let at = self.spawn_position(draw);
        Components {
            position: Some(Vec3 { x: at.x, y: at.y, z: 0 }),
            walker: Some(Walker { direction: draw.direction }),
            age: Some(Age { millis: 0, max: None }),
            collider: Some(ColliderHandle { handle: next_handle(p.colliders) }),
            sprite: Some(Sprite::Walker),
            ..Components::nothing()
        }
    }

    /// A spawner at `position` that has made no walker yet. The time to its
    /// first walker is drawn from the range of the settings.
    pub fn new(position: Vec2, config: &SpawnerConfig, raw_frequency: u32) -> (s: Self)
        ensures
            s == Self::fresh(position, *config, raw_frequency),
            s.wf(),
    {
        Spawner {
            position,
            size: config.size,
            max_count: config.max_count,
            frequency: draw_frequency(raw_frequency, config.frequency_min, config.frequency_max),
            spawned_so_far: 0,
            elapsed: 0,
        }
    }

    /// Lets `dt` milliseconds pass. If the spawner may still make walkers
    /// and the time between two walkers has passed, it makes one: the body
    /// is in the physics world at once, the walker is returned for creation
    /// at the end of the tick, it is counted, the wait begins anew, and the
    /// time to the next walker is drawn. A spawner that kept count with
    /// `stats` before still does so afterwards.
    pub fn tick(
        &mut self,
        dt: u32,
        draw: &SpawnDraw,
        config: &SpawnerConfig,
        pawn: &PawnConfig,
        physics: &mut PhysicsAdapter,
        stats: &mut SpawnStats,
    ) -> (walker: Option<Components>)
        ensures
            *final(self) == old(self).ticked(dt, *draw, *config),
            walker == if old(self).due(dt) {
                Some(old(self).spawned_walker(*draw, old(physics)@))
            } else {
                None
            },
            final(physics)@ == if old(self).due(dt) {
                old(self).physics_after_spawn(*draw, *pawn, old(physics)@)
            } else {
                old(physics)@
            },
            *final(stats) == if old(self).due(dt) {
                SpawnStats { spawned: bumped(old(stats).spawned), ..*old(stats) }
            } else {
                *old(stats)
            },
            old(self).wf() ==> final(self).wf(),
            old(physics)@.sound() ==> final(physics)@.sound(),
            old(physics)@.extended_by(final(physics)@),
            old(self).spawned_so_far == old(stats).spawned ==> final(self).spawned_so_far
                == final(stats).spawned,
    {
        let elapsed = self.elapsed.saturating_add(dt as u64);
        if self.spawned_so_far < self.max_count && elapsed >= self.frequency as u64 {
            let at = Vec2 {
                x: saturate_i32(self.position.x as i128 + offset_within(draw.x, self.size.x) as i128),
                y: saturate_i32(self.position.y as i128 + offset_within(draw.y, self.size.y) as i128),
            };
            let (_body, collider) = physics.create_dynamic_box(
                at,
                Vec2 { x: half_of(pawn.width), y: half_of(pawn.height) },
                0,
                pawn.density,
            );
            self.spawned_so_far = self.spawned_so_far + 1;
            stats.record_spawned();
            self.elapsed = 0;
            self.frequency = draw_frequency(
                draw.frequency,
                config.frequency_min,
                config.frequency_max,
            );
            Some(
                Components {
                    position: Some(Vec3 { x: at.x, y: at.y, z: 0 }),
                    walker: Some(Walker { direction: draw.direction }),
                    age: Some(Age { millis: 0, max: None }),
                    collider: Some(collider),
                    sprite: Some(Sprite::Walker),
                    ..Components::empty()
                },
            )
        } else {
            proof {
                lemma_extended_chain(physics@, physics@, physics@);
            }
            self.elapsed = elapsed;
            None
        }
    }
}

/// A number from 0 to `extent`, decided by `raw`.
pub fn offset_within(raw: u32, extent: i32) -> (r: u32)
    ensures
        r == within(raw, extent),
{
    if extent <= 0 {
        0
    } else {
        raw % (extent as u32 + 1)
    }
}

/// A time from `min` to `max`, decided by `raw`.
pub fn draw_frequency(raw: u32, min: u32, max: u32) -> (f: u32)
    ensures
        f == drawn_frequency(raw, min, max),
        min <= max ==> min <= f <= max,
{
    if max <= min {
        min
    } else {
        let span: u64 = (max - min) as u64 + 1;
        let r: u64 = (raw as u64) % span;
        (min as u64 + r) as u32
    }
}

/// The one pace at which walkers are spawned. Spawners that differ in pace
/// are an error of the settings: no pace is made up for them.
pub fn authoritative_frequency(spawners: &Vec<Spawner>) -> (r: Result<Option<u32>, ConflictingSpawners>)
    ensures
        spawners@.len() == 0 ==> r == Ok::<Option<u32>, ConflictingSpawners>(None),
        r matches Ok(Some(f)) ==> spawners@.len() > 0 && forall|i: int|
            0 <= i < spawners@.len() ==> (#[trigger] spawners@[i]).frequency == f,
        r matches Err(e) ==> spawners@.len() > 0 && e.first == spawners@[0].frequency && e.first
            != e.other && exists|i: int|
            0 <= i < spawners@.len() && (#[trigger] spawners@[i]).frequency == e.other && forall|j: int|
                0 <= j < i ==> (#[trigger] spawners@[j]).frequency == e.first,
        r is Ok <==> forall|i: int, j: int|
            0 <= i < spawners@.len() && 0 <= j < spawners@.len() ==> (#[trigger] spawners@[i]).frequency
                == (#[trigger] spawners@[j]).frequency,
        r matches Ok(None) ==> spawners@.len() == 0,
{
    let n = spawners.len();
    if n == 0 {
        return Ok(None);
    }
    let first = spawners[0].frequency;
    let mut i: usize = 1;
    while i < n
        invariant
            n == spawners@.len(),
            1 <= i <= n,
            first == spawners@[0].frequency,
            forall|j: int| 0 <= j < i ==> (#[trigger] spawners@[j]).frequency == first,
        decreases n - i,
    {
        if spawners[i].frequency != first {
            return Err(ConflictingSpawners { first, other: spawners[i].frequency });
        }
        i += 1;
    }
    Ok(Some(first))
}

/// The time between two walkers always lies in the range of the settings,
/// where the settings give a range.
pub proof fn lemma_frequency_in_range(raw: u32, min: u32, max: u32)
    requires
        min <= max,
    ensures
        min <= drawn_frequency(raw, min, max) <= max,
{
}

/// A spawner never makes more walkers than it may, and each tick makes one
/// walker at most.
pub proof fn lemma_spawner_bounded(s: Spawner, dt: u32, draw: SpawnDraw, config: SpawnerConfig)
    requires
        s.wf(),
    ensures
        s.ticked(dt, draw, config).wf(),
        s.ticked(dt, draw, config).max_count == s.max_count,
        s.spawned_so_far <= s.ticked(dt, draw, config).spawned_so_far <= s.spawned_so_far + 1,
        s.spawned_so_far == s.max_count ==> s.ticked(dt, draw, config).spawned_so_far
            == s.max_count,
{
}

} // verus!
