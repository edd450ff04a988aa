//! One tick of the whole game.
//!
//! The systems run once per tick, one after the other and always in the same
//! order: the spawner; the ages and the matriarch; the constant velocities;
//! the three interventions; the direction changers; the camera. What they
//! asked to be created is created at the end of the tick, and the matriarch
//! is determined once more, so that no tick ends with walkers and no
//! matriarch.

use vstd::prelude::*;
use crate::arena::next_handle;
use crate::camera_movement::{CameraMovement, cameras_moved, follow_target, latest_zoom};
use crate::command::{Command, CommandBus, unread};
use crate::components::{Components, EntityId};
use crate::config::{CameraConfig, GameConfig, PawnConfig, PhysicsConfig, SpawnerConfig};
use crate::drop_direction_changer::DropDirectionChanger;
use crate::drop_lift::DropLift;
use crate::drop_ram::DropRam;
use crate::geometry::Vec2;
use crate::intervention::{Intervention, carried_out};
use crate::lifecycle::{
    advance_ages, all_aged, flush, flushed, lemma_one_matriarch, matriarch_count, outlived,
    promote, promoted, walker_count,
};
use crate::ownership::{lemma_tied_extended, lemma_tied_same_colliders, tied};
use crate::physics::{PhysicsAdapter, PhysicsView};
use crate::resolution::{resolved_physics, resolved_world};
use crate::spawner::{SpawnDraw, Spawner};
use crate::stats::{SpawnStats, bumped};
use crate::velocity::{apply_constant_velocities, driven};
use crate::world::{Entities, World};

verus! {

/// The settings that a tick reads.
pub struct TickConfig {
    pub pawn: PawnConfig,
    pub physics: PhysicsConfig,
    pub camera: CameraConfig,
    pub spawner: SpawnerConfig,
}

/// The settings of `config` that a tick reads.
pub open spec fn tick_config(config: GameConfig) -> TickConfig {
    TickConfig {
        pawn: config.pawn,
        physics: config.physics,
        camera: config.camera,
        spawner: config.spawner,
    }
}

/// What a [`Simulation`] holds.
pub struct SimulationView {
    pub world: Entities,
    pub physics: PhysicsView,
    /// Every command that was ever published.
    pub log: Seq<Command>,
    /// How many commands the bus holds at most.
    pub capacity: nat,
    /// How many commands the systems have behind them.
    pub read: nat,
    pub stats: SpawnStats,
    pub spawner: Option<Spawner>,
}

impl SimulationView {
    /// The commands that the systems read in the next tick.
    pub open spec fn commands(self) -> Seq<Command> {
        unread(self.log, self.capacity, self.read)
    }

    /// Whether the spawner makes a walker in a tick of `dt` milliseconds.
    pub open spec fn spawns(self, dt: u32) -> bool {
        self.spawner matches Some(s) && s.due(dt)
    }

    /// The walker that the spawner makes, if it makes one.
    pub open spec fn spawned(self, dt: u32, draw: SpawnDraw) -> Seq<Components> {
        if self.spawns(dt) {
            seq![self.spawner->0.spawned_walker(draw, self.physics)]
        } else {
            Seq::empty()
        }
    }

    /// The state after the spawner had its turn.
    pub open spec fn after_spawner(self, dt: u32, draw: SpawnDraw, config: TickConfig)
        -> SimulationView {
        match self.spawner {
            Some(s) => SimulationView {
                spawner: Some(s.ticked(dt, draw, config.spawner)),
                physics: if s.due(dt) {
                    s.physics_after_spawn(draw, config.pawn, self.physics)
                } else {
                    self.physics
                },
                stats: if s.due(dt) {
                    SpawnStats { spawned: bumped(self.stats.spawned), ..self.stats }
                } else {
                    self.stats
                },
                ..self
            },
            None => self,
        }
    }

    /// The state after every entity grew older, those that outlived their
    /// time were destroyed, the matriarch was determined, and the bodies
    /// with a constant velocity were given it.
    pub open spec fn after_lifecycle(self, dt: u32) -> SimulationView {
        let world = promoted(all_aged(self.world, dt));
        let physics = outlived(self.physics, self.world, dt, self.world.len() as int);
        SimulationView { world, physics: driven(physics, world, world.len() as int), ..self }
    }

    /// The entities that the drop of `kind` asks for, in a state in which the
    /// interventions before it have had their turn.
    pub open spec fn pending_of(self, kind: Intervention, config: TickConfig) -> Seq<Components> {
        carried_out(kind, self.commands(), self.world, config.physics, self.physics).pending
    }

    /// The state after the drop of `kind` had its turn.
    pub open spec fn after_drop(self, kind: Intervention, config: TickConfig) -> SimulationView {
        SimulationView {
            physics: carried_out(
                kind,
                self.commands(),
                self.world,
                config.physics,
                self.physics,
            ).physics,
            ..self
        }
    }

    /// The state after the walkers that touch a direction changer were
    /// turned.
    pub open spec fn after_resolution(self) -> SimulationView {
        SimulationView {
            world: resolved_world(self.world, self.physics),
            physics: resolved_physics(self.world, self.physics),
            ..self
        }
    }

    /// The state after the camera had its turn.
    pub open spec fn after_camera(self, dt: u32, config: TickConfig) -> SimulationView {
        SimulationView {
            world: cameras_moved(
                self.world,
                follow_target(self.world, config.camera, self.stats),
                latest_zoom(self.commands()),
                dt,
                config.camera,
            ),
            ..self
        }
    }

    /// The state after `pending` was created.
    pub open spec fn after_flush(self, pending: Seq<Components>) -> SimulationView {
        let f = flushed(self.world, self.physics, pending, pending.len() as int);
        SimulationView { world: f.world, physics: f.physics, ..self }
    }

    /// The state after the end of the tick: the matriarch is determined once
    /// more, and the commands of the tick are behind the systems.
    pub open spec fn after_sync(self) -> SimulationView {
        SimulationView { world: promoted(self.world), read: self.log.len(), ..self }
    }

    /// The state one tick of `dt` milliseconds later.
    pub open spec fn ticked(self, dt: u32, draw: SpawnDraw, config: TickConfig) -> SimulationView {
        let walker = self.spawned(dt, draw);
        let s = self.after_spawner(dt, draw, config).after_lifecycle(dt);
        let lift = s.pending_of(Intervention::Lift, config);
        let s = s.after_drop(Intervention::Lift, config);
        let ram = s.pending_of(Intervention::Ram, config);
        let s = s.after_drop(Intervention::Ram, config);
        let changer = s.pending_of(Intervention::DirectionChanger, config);
        let s = s.after_drop(Intervention::DirectionChanger, config);
        let s = s.after_resolution().after_camera(dt, config);
        s.after_flush(walker).after_flush(lift).after_flush(ram).after_flush(changer).after_sync()
    }

    /// Whether the entities and the physics world agree on which collider
    /// belongs to which entity.
    pub open spec fn tied(self) -> bool {
        tied(self.world, self.physics)
    }

    /// Whether the spawner, if there is one, keeps count with the counters
    /// and has made no more walkers than it may.
    pub open spec fn counts_agree(self) -> bool {
        self.spawner matches Some(s) ==> s.wf() && s.spawned_so_far == self.stats.spawned
    }
}

/// The bus of commands with the systems that read from it.
pub struct Systems {
    bus: CommandBus,
    drop_lift: DropLift,
    drop_ram: DropRam,
    drop_direction_changer: DropDirectionChanger,
    camera_movement: CameraMovement,
}

impl Systems {
    /// Every command that was ever published.
    pub closed spec fn log(&self) -> Seq<Command> {
        self.bus.log()
    }

    /// How many commands the bus holds at most.
    pub closed spec fn capacity(&self) -> nat {
        self.bus.capacity()
    }

    /// How many commands the systems have behind them.
    pub closed spec fn read(&self) -> nat {
        self.drop_lift@->0
    }

    /// What holds of the systems at all times: the bus is in order, every
    /// system has subscribed to it, and all have read equally far.
    pub closed spec fn wf(&self) -> bool {
        &&& self.bus.wf()
        &&& self.drop_lift@ is Some
        &&& self.drop_ram@ == self.drop_lift@
        &&& self.drop_direction_changer@ == self.drop_lift@
        &&& self.camera_movement@ == self.drop_lift@
    }

    /// The systems, subscribed to a new bus that holds `capacity` commands.
    pub fn new(capacity: usize) -> (s: Self)
        ensures
            s.wf(),
            s.log() == Seq::<Command>::empty(),
            s.capacity() == capacity,
            s.read() == 0,
    {
        register_systems(CommandBus::new(capacity))
    }

    /// The number of commands published so far.
    pub fn published(&self) -> (n: u64)
        requires
            self.wf(),
        ensures
            n == self.log().len(),
    {
        self.bus.published()
    }

    /// Publishes a command to the systems of the next tick.
    pub fn publish(&mut self, command: Command)
        requires
            old(self).wf(),
            old(self).log().len() < u64::MAX,
        ensures
            final(self).wf(),
            final(self).log() == old(self).log().push(command),
            final(self).capacity() == old(self).capacity(),
            final(self).read() == old(self).read(),
    {
        self.bus.publish(command);
    }
}

/// Registers the systems of the game on `bus`: each of them subscribes, and
/// sees the commands that are published from now on.
pub fn register_systems(bus: CommandBus) -> (s: Systems)
    requires
        bus.wf(),
    ensures
        s.wf(),
        s.log() == bus.log(),
        s.capacity() == bus.capacity(),
        s.read() == bus.log().len(),
{
    let mut drop_lift = DropLift::default();
    let mut drop_ram = DropRam::default();
    let mut drop_direction_changer = DropDirectionChanger::default();
    let mut camera_movement = CameraMovement::default();
    drop_lift.setup(&bus);
    drop_ram.setup(&bus);
    drop_direction_changer.setup(&bus);
    camera_movement.setup(&bus);
    Systems { bus, drop_lift, drop_ram, drop_direction_changer, camera_movement }
}

/// The game between two frames: the entities, the physics world, the
/// counters, the spawner, and the systems with their commands.
pub struct Simulation {
    pub world: World,
    pub physics: PhysicsAdapter,
    pub stats: SpawnStats,
    pub spawner: Option<Spawner>,
    pub systems: Systems,
}

impl View for Simulation {
    type V = SimulationView;

    open spec fn view(&self) -> SimulationView {
        SimulationView {
            world: self.world@,
            physics: self.physics@,
            log: self.systems.log(),
            capacity: self.systems.capacity(),
            read: self.systems.read(),
            stats: self.stats,
            spawner: self.spawner,
        }
    }
}

impl Simulation {
    /// What holds of every simulation: its systems are in order.
    pub open spec fn wf(&self) -> bool {
        self.systems.wf()
    }

    /// An empty game with a bus that holds `capacity` commands.
    pub fn new(capacity: usize) -> (s: Self)
        ensures
            s.wf(),
            s@.world.len() == 0,
            s@.physics.colliders.len() == 0 && s@.physics.bodies.len() == 0
                && s@.physics.contacts.len() == 0,
            s@.log.len() == 0,
            s@.capacity == capacity,
            s@.read == 0,
            s@.stats == SpawnStats::fresh(0),
            s@.spawner is None,
            s@.physics.sound(),
            s@.tied(),
    {
        Simulation {
            world: World::new(),
            physics: PhysicsAdapter::new(),
            stats: SpawnStats::new(0),
            spawner: None,
            systems: Systems::new(capacity),
        }
    }

    /// Creates an entity at once: a part of the level, or a camera.
    pub fn create(&mut self, c: Components) -> (e: EntityId)
        ensures
            final(self).wf() == old(self).wf(),
            final(self)@ == old(self)@.after_flush(seq![c]),
            old(self)@.physics.sound() ==> final(self)@.physics.sound(),
            old(self)@.tied() ==> final(self)@.tied(),
            e.handle == next_handle(old(self)@.world),
    {
        let pending = vec![c];
        let created = flush(&mut self.world, &mut self.physics, &pending);
        proof {
            reveal_with_fuel(flushed, 2);
        }
        created[0]
    }

    /// Starts a level: the counters start anew and a spawner is put at
    /// `position`, with the time to its first walker drawn from the range of
    /// the settings.
    pub fn start_level(&mut self, position: Vec2, config: &SpawnerConfig, raw_frequency: u32)
        ensures
            final(self).wf() == old(self).wf(),
            final(self)@ == (SimulationView {
                stats: SpawnStats::fresh(config.max_count),
                spawner: Some(Spawner::fresh(position, *config, raw_frequency)),
                ..old(self)@
            }),
            final(self)@.counts_agree(),
    {
        self.stats.reset(config.max_count);
        self.spawner = Some(Spawner::new(position, config, raw_frequency));
    }

    /// Publishes a command to the systems of the next tick.
    pub fn command(&mut self, command: Command)
        requires
            old(self).wf(),
            old(self)@.log.len() < u64::MAX,
        ensures
            final(self).wf(),
            final(self)@ == (SimulationView {
                log: old(self)@.log.push(command),
                ..old(self)@
            }),
    {
        self.systems.publish(command);
    }

    /// One tick of `dt` milliseconds. `draw` holds the random numbers that
    /// the spawner may use. When the tick is over there is exactly one
    /// matriarch if a walker lives, and none if none does; a spawner that
    /// kept count with the counters still does; and entities and colliders
    /// that agreed on who owns what still agree.
    pub fn tick(&mut self, dt: u32, draw: &SpawnDraw, config: &GameConfig)
        requires
            old(self).wf(),
        ensures
            final(self).wf(),
            final(self)@ == old(self)@.ticked(dt, *draw, tick_config(*config)),
            matriarch_count(final(self)@.world) == if walker_count(final(self)@.world) >= 1 {
                1nat
            } else {
                0nat
            },
            old(self)@.counts_agree() ==> final(self)@.counts_agree(),
            old(self)@.physics.sound() ==> final(self)@.physics.sound(),
            old(self)@.tied() ==> final(self)@.tied(),
    {
        let ghost cfg = tick_config(*config);
        let ghost s0 = self@;
        let mut walker: Vec<Components> = Vec::new();
        match self.spawner {
            Some(mut s) => {
                match s.tick(
                    dt,
                    draw,
                    &config.spawner,
                    &config.pawn,
                    &mut self.physics,
                    &mut self.stats,
                ) {
                    Some(c) => {
                        walker.push(c);
                    },
                    None => {},
                }
                self.spawner = Some(s);
            },
            None => {},
        }
        assert(walker@ =~= s0.spawned(dt, *draw));
        assert(self@ == s0.after_spawner(dt, *draw, cfg));
        let ghost s1 = self@;
        proof {
            self.world.lemma_fits();
        }
        proof {
            if s0.tied() {
                lemma_tied_extended(s0.world, s0.physics, s1.physics);
            }
        }
        advance_ages(&mut self.world, &mut self.physics, dt);
        let ghost aged = self.world@;
        promote(&mut self.world);
        let ghost led = self.physics@;
        apply_constant_velocities(&self.world, &mut self.physics);
        proof {
            if s0.tied() {
                lemma_tied_same_colliders(aged, self.world@, led);
                lemma_tied_extended(self.world@, led, self.physics@);
            }
        }
        assert(self@ == s1.after_lifecycle(dt));
        let ghost s2 = self@;
        let lift = self.systems.drop_lift.run(&self.systems.bus, &self.world, &mut self.physics, &config.physics);
        assert(lift@ == s2.pending_of(Intervention::Lift, cfg));
        let ghost s3 = s2.after_drop(Intervention::Lift, cfg);
        let ram = self.systems.drop_ram.run(&self.systems.bus, &self.world, &mut self.physics, &config.physics);
        assert(ram@ == s3.pending_of(Intervention::Ram, cfg));
        let ghost s4 = s3.after_drop(Intervention::Ram, cfg);
        proof {
            if s0.tied() {
                lemma_tied_extended(s2.world, s2.physics, s3.physics);
                lemma_tied_extended(s2.world, s3.physics, s4.physics);
            }
        }
        let changer = self.systems.drop_direction_changer.run(
            &self.systems.bus,
            &mut self.world,
            &mut self.physics,
            &config.physics,
        );
        assert(changer@ == s4.pending_of(Intervention::DirectionChanger, cfg));
        let ghost s5 = s4.after_drop(Intervention::DirectionChanger, cfg).after_resolution();
        self.systems.camera_movement.run(&self.systems.bus, &mut self.world, &config.camera, &self.stats, dt);
        let ghost s6 = s5.after_camera(dt, cfg);
        assert(self.world@ == s6.world);
        assert(self.physics@ == s6.physics);
        proof {
            if s0.tied() {
                lemma_tied_extended(s2.world, s4.physics, s5.physics);
                lemma_tied_same_colliders(s2.world, s5.world, s5.physics);
                lemma_tied_same_colliders(s5.world, s6.world, s6.physics);
            }
        }
        flush(&mut self.world, &mut self.physics, &walker);
        flush(&mut self.world, &mut self.physics, &lift);
        flush(&mut self.world, &mut self.physics, &ram);
        flush(&mut self.world, &mut self.physics, &changer);
        let ghost before_sync = self.world@;
        proof {
            self.world.lemma_fits();
        }
        promote(&mut self.world);
        proof {
            lemma_one_matriarch(before_sync);
            if s0.tied() {
                lemma_tied_same_colliders(before_sync, self.world@, self.physics@);
            }
        }
    }
}

} // verus!
