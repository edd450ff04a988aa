//! The whole game: the levels, the running state and the simulation, frame
//! by frame.
//!
//! A level that is loaded gets its counters and its spawner; a level that is
//! taken out of the world takes its spawner with it.

use vstd::prelude::*;
use crate::arena::emptied;
use crate::config::{GameConfig, LevelInfo, LevelsConfig};
use crate::lifecycle::{matriarch_count, walker_count};
use crate::running::{Key, LoadState, Reaction, RunningState, RunningView, Tick};
use crate::simulation::{Simulation, SimulationView, TickConfig, tick_config};
use crate::spawner::{SpawnDraw, Spawner};
use crate::stats::SpawnStats;
use crate::ui::{UiChange, UiSlots, UiWrite, changes};

verus! {

/// What one frame brings with it.
#[derive(Clone, Copy, Debug)]
pub struct FrameInput {
    /// The number of the frame.
    pub frame: u64,
    /// The time, in milliseconds since the game began.
    pub now: u64,
    /// The frames per second measured of late, in tenths.
    pub fps_tenths: u32,
    /// The time since the last frame, in milliseconds.
    pub dt: u32,
}

/// The time between two walkers, if there is a spawner.
pub open spec fn rate_of(spawner: Option<Spawner>) -> Option<u32> {
    match spawner {
        Some(s) => Some(s.frequency),
        None => None,
    }
}

/// What the running state is told of the frame.
pub open spec fn tick_of(input: FrameInput, spawner: Option<Spawner>) -> Tick {
    Tick {
        frame: input.frame,
        now: input.now,
        fps_tenths: input.fps_tenths,
        rate: rate_of(spawner),
    }
}

/// The simulation after the level was taken out of it: no entity, no
/// collider and no spawner is left. The counters and the commands stay.
pub open spec fn emptied_out(s: SimulationView) -> SimulationView {
    SimulationView {
        world: emptied(s.world),
        physics: s.physics.cleared(),
        spawner: None,
        ..s
    }
}

/// What a [`Game`] holds.
pub struct GameView {
    pub running: RunningView,
    pub simulation: SimulationView,
    pub levels: Seq<LevelInfo>,
}

impl GameView {
    /// The game after `levels` were set up in `frame`: a level that was
    /// played is taken out of the world, and its place in the list carries
    /// over.
    pub open spec fn set_up(self, levels: Seq<LevelInfo>, frame: u64) -> GameView {
        GameView {
            running: self.running.initialised(levels, frame),
            simulation: if self.running.level is Some {
                emptied_out(self.simulation)
            } else {
                self.simulation
            },
            levels,
        }
    }

    /// The game after the player asked for the next level in `frame`.
    pub open spec fn advanced(self, frame: u64) -> GameView {
        GameView {
            running: self.running.advanced(frame),
            simulation: if self.running.can_advance() {
                emptied_out(self.simulation)
            } else {
                self.simulation
            },
            ..self
        }
    }

    /// The simulation after the level was loaded, if that was due in this
    /// frame: the counters start anew, and a spawner stands where the level
    /// has its walkers appear.
    pub open spec fn level_started(self, input: FrameInput, draw: SpawnDraw, config: TickConfig)
        -> SimulationView {
        if self.running.load_due(input.frame) {
            SimulationView {
                stats: SpawnStats::fresh(config.spawner.max_count),
                spawner: Some(
                    Spawner::fresh(self.running.spawn(), config.spawner, draw.frequency),
                ),
                ..self.simulation
            }
        } else {
            self.simulation
        }
    }

    /// The game one frame later.
    pub open spec fn updated(
        self,
        input: FrameInput,
        found: UiSlots,
        draw: SpawnDraw,
        config: TickConfig,
    ) -> GameView {
        GameView {
            running: self.running.updated(tick_of(input, self.simulation.spawner), found),
            simulation: self.level_started(input, draw, config).ticked(input.dt, draw, config),
            ..self
        }
    }

    /// What the frame writes on screen.
    pub open spec fn update_writes(self, input: FrameInput, found: UiSlots, config: TickConfig)
        -> Seq<UiChange> {
        self.running.update_writes(
            tick_of(input, self.simulation.spawner),
            found,
            self.simulation.stats,
            config.spawner,
        )
    }
}

/// The whole game.
pub struct Game {
    pub running: RunningState,
    pub simulation: Simulation,
    pub levels: LevelsConfig,
}

impl View for Game {
    type V = GameView;

    open spec fn view(&self) -> GameView {
        GameView { running: self.running@, simulation: self.simulation@, levels: self.levels@ }
    }
}

impl Game {
    /// What holds of every game: the systems of its simulation are in
    /// order.
    pub open spec fn wf(&self) -> bool {
        self.simulation.wf()
    }

    /// A game with these levels in which nothing has happened yet, and with
    /// a bus that holds `capacity` commands.
    pub fn new(levels: LevelsConfig, capacity: usize) -> (g: Self)
        ensures
            g.wf(),
            g@.levels == levels@,
            g@.running.level is None,
            g@.running.level_start is None,
            !g@.running.level_text_update_needed,
            g@.running.level_load_frame == 0,
            g@.running.slots == UiSlots::unknown(),
            g@.simulation.world.len() == 0,
            g@.simulation.physics.colliders.len() == 0 && g@.simulation.physics.bodies.len() == 0
                && g@.simulation.physics.contacts.len() == 0,
            g@.simulation.log.len() == 0,
            g@.simulation.capacity == capacity,
            g@.simulation.read == 0,
            g@.simulation.stats == SpawnStats::fresh(0),
            g@.simulation.spawner is None,
            g@.simulation.tied(),
            g@.simulation.physics.sound(),
    {
        Game { running: RunningState::new(), simulation: Simulation::new(capacity), levels }
    }

    /// Starts the game: the levels are set up and the first of them waits to
    /// be loaded.
    pub fn on_start(&mut self, frame: u64)
        ensures
            final(self)@ == old(self)@.set_up(old(self)@.levels, frame),
            final(self).wf() == old(self).wf(),
            old(self)@.simulation.counts_agree() ==> final(self)@.simulation.counts_agree(),
            old(self)@.simulation.tied() ==> final(self)@.simulation.tied(),
            old(self)@.simulation.physics.sound() ==> final(self)@.simulation.physics.sound(),
    {
        let had_level = self.running.current_level().is_some();
        self.running.on_start(
            &self.levels,
            frame,
            &mut self.simulation.world,
            &mut self.simulation.physics,
        );
        if had_level {
            self.simulation.spawner = None;
        }
    }

    /// Reacts to a key: `Escape` ends the game, `R` asks for the
    /// configuration to be read again, `N` goes on to the next level.
    pub fn handle_event(&mut self, key: Key, frame: u64) -> (r: Reaction)
        ensures
            r == match key {
                Key::Escape => Reaction::Quit,
                Key::R => Reaction::ReloadConfig,
                _ => Reaction::Nothing,
            },
            final(self)@ == if key == Key::N {
                old(self)@.advanced(frame)
            } else {
                old(self)@
            },
            final(self).wf() == old(self).wf(),
            old(self)@.simulation.counts_agree() ==> final(self)@.simulation.counts_agree(),
            old(self)@.simulation.tied() ==> final(self)@.simulation.tied(),
            old(self)@.simulation.physics.sound() ==> final(self)@.simulation.physics.sound(),
    {
        let unloads = match key {
            Key::N => self.running.can_advance(),
            _ => false,
        };
        let r = self.running.handle_event(
            key,
            frame,
            &mut self.simulation.world,
            &mut self.simulation.physics,
        );
        if unloads {
            self.simulation.spawner = None;
        }
        r
    }

    /// Takes in the outcome of reading the configuration again. Levels that
    /// were read replace those of the game and are set up; where reading
    /// failed nothing changes, and the game goes on with what it had. Says
    /// whether the new levels were taken.
    pub fn config_reloaded(&mut self, loaded: Option<LevelsConfig>, frame: u64) -> (taken: bool)
        ensures
            taken == loaded is Some,
            final(self)@ == match loaded {
                Some(c) => old(self)@.set_up(c@, frame),
                None => old(self)@,
            },
            final(self).wf() == old(self).wf(),
            old(self)@.simulation.counts_agree() ==> final(self)@.simulation.counts_agree(),
            old(self)@.simulation.tied() ==> final(self)@.simulation.tied(),
            old(self)@.simulation.physics.sound() ==> final(self)@.simulation.physics.sound(),
    {
        let unloads = loaded.is_some() && self.running.current_level().is_some();
        let taken = self.running.config_reloaded(
            loaded,
            &mut self.levels,
            frame,
            &mut self.simulation.world,
            &mut self.simulation.physics,
        );
        if unloads {
            self.simulation.spawner = None;
        }
        taken
    }

    /// One frame. The level is loaded if that is due, with its counters and
    /// its spawner; the screen is brought up to date; and the simulation
    /// ticks. Returns what to write on screen, in order. When the frame is
    /// over there is exactly one matriarch if a walker lives, and none if
    /// none does.
    pub fn update(
        &mut self,
        input: &FrameInput,
        found: &UiSlots,
        draw: &SpawnDraw,
        config: &GameConfig,
    ) -> (writes: Vec<UiWrite>)
        requires
            old(self).wf(),
        ensures
            final(self).wf(),
            final(self)@ == old(self)@.updated(*input, *found, *draw, tick_config(*config)),
            changes(writes@) == old(self)@.update_writes(*input, *found, tick_config(*config)),
            matriarch_count(final(self)@.simulation.world) == if walker_count(
                final(self)@.simulation.world,
            ) >= 1 {
                1nat
            } else {
                0nat
            },
            old(self)@.simulation.counts_agree() || old(self)@.running.load_due(input.frame)
                ==> final(self)@.simulation.counts_agree(),
            old(self)@.simulation.tied() ==> final(self)@.simulation.tied(),
            old(self)@.simulation.physics.sound() ==> final(self)@.simulation.physics.sound(),
    {
        let tick = Tick {
            frame: input.frame,
            now: input.now,
            fps_tenths: input.fps_tenths,
            rate: match self.simulation.spawner {
                Some(s) => Some(s.frequency),
                None => None,
            },
        };
        let loads = self.running.load_state(input.frame) == LoadState::Loading;
        let writes = self.running.update(&tick, found, &mut self.simulation.stats, &config.spawner);
        if loads {
            self.simulation.start_level(
                self.running.spawn_position(),
                &config.spawner,
                draw.frequency,
            );
        }
        self.simulation.tick(input.dt, draw, config);
        writes
    }
}

} // verus!
