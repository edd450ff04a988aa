//! The running game: which level is played, when it is loaded, and what the
//! screen shows of it.
//!
//! A level is not loaded in the frame in which it was asked for. The world
//! is emptied first, and what was destroyed needs the following frames to be
//! gone for good; so loading waits until [`SETTLING_FRAMES`] frames have
//! passed.

use vstd::prelude::*;
use crate::arena::emptied;
use crate::config::{LevelInfo, LevelsConfig, SpawnerConfig};
use crate::geometry::Vec2;
use crate::level::{Level, LevelView, clamp_index};
use crate::ownership::tied;
use crate::physics::{PhysicsAdapter, PhysicsView};
use crate::stats::SpawnStats;
use crate::ui::{
    UiChange, UiSlots, UiWrite, changes, fps_text, killed_text, make_fps_text, make_killed_text,
    make_rate_text, make_saved_text, make_spawned_text, push_write, rate_percent, rate_text,
    saved_text, spawn_rate_percent, spawned_text,
};
use crate::world::{Entities, World};

verus! {

/// The counters on screen are brought up to date every so many frames.
pub const UI_UPDATE_FRAMES: u64 = 20;

/// A level is loaded once this many frames have passed since it was asked
/// for.
pub const SETTLING_FRAMES: u64 = 2;

/// For how long the name and the description of a level stay on screen.
pub const BANNER_MILLIS: u64 = 5000;

/// A key that the running game listens to.
#[derive(Clone, Copy, Debug, PartialEq, Eq, Structural)]
pub enum Key {
    Escape,
    R,
    N,
    Other,
}

/// What the game asks of its caller after an event.
#[derive(Clone, Copy, Debug, PartialEq, Eq, Structural)]
pub enum Reaction {
    /// Go on.
    Nothing,
    /// End the game.
    Quit,
    /// Read the configuration again and hand it to
    /// [`RunningState::config_reloaded`].
    ReloadConfig,
}

/// Where the content of the level stands.
#[derive(Clone, Copy, Debug, PartialEq, Eq, Structural)]
pub enum LoadState {
    /// Nothing is in the world and nothing may be loaded: no level was
    /// chosen yet, or the world still settles.
    Unloaded,
    /// The world has settled: the level is loaded with the next update.
    Loading,
    /// The level is in the world.
    Loaded,
}

/// What one frame brings with it.
#[derive(Clone, Copy, Debug)]
pub struct Tick {
    /// The number of the frame.
    pub frame: u64,
    /// The time, in milliseconds since the game began.
    pub now: u64,
    /// The frames per second measured of late, in tenths.
    pub fps_tenths: u32,
    /// The time between two walkers of the one spawner that counts, if there
    /// is a spawner.
    pub rate: Option<u32>,
}

/// What a [`RunningState`] holds.
pub struct RunningView {
    pub slots: UiSlots,
    pub level: Option<LevelView>,
    /// When the level was loaded, as long as its name is on screen.
    pub level_start: Option<u64>,
    pub level_text_update_needed: bool,
    /// The frame after which the level may be loaded.
    pub level_load_frame: u64,
}

/// The frame after which a level asked for in `frame` may be loaded.
pub open spec fn load_frame_after(frame: u64) -> u64 {
    if frame + SETTLING_FRAMES > u64::MAX {
        u64::MAX
    } else {
        (frame + SETTLING_FRAMES) as u64
    }
}

impl RunningView {
    /// Where the content of the level stands in `frame`.
    pub open spec fn load_state(self, frame: u64) -> LoadState {
        match self.level {
            None => LoadState::Unloaded,
            Some(l) => if l.loaded {
                LoadState::Loaded
            } else if self.level_load_frame < frame {
                LoadState::Loading
            } else {
                LoadState::Unloaded
            },
        }
    }

    /// Where the walkers of the level that is played appear; the origin
    /// where no level was chosen.
    pub open spec fn spawn(self) -> Vec2 {
        match self.level {
            Some(l) => l.spawn(),
            None => Vec2 { x: 0, y: 0 },
        }
    }

    /// Whether the level is to be loaded in `frame`: it was chosen, it is not
    /// in the world, and the frames of settling have passed.
    pub open spec fn load_due(self, frame: u64) -> bool {
        self.load_state(frame) == LoadState::Loading
    }

    /// The state after the level was loaded at the time `now`.
    pub open spec fn loaded_at(self, now: u64) -> RunningView {
        RunningView {
            level: Some(LevelView { loaded: true, ..self.level->0 }),
            level_start: Some(now),
            level_text_update_needed: true,
            ..self
        }
    }

    /// The state after the level was loaded, if that was due.
    pub open spec fn checked(self, frame: u64, now: u64) -> RunningView {
        if self.load_due(frame) {
            self.loaded_at(now)
        } else {
            self
        }
    }

    /// The state after the levels of `config` were set up in `frame`: the
    /// place in the list carries over as far as the new list reaches, and
    /// the level waits to be loaded.
    pub open spec fn initialised(self, config: Seq<LevelInfo>, frame: u64) -> RunningView {
        RunningView {
            level: Some(
                LevelView {
                    levels: config,
                    current: match self.level {
                        Some(l) => clamp_index(l.current, config.len() as int),
                        None => 0,
                    },
                    loaded: false,
                },
            ),
            level_load_frame: load_frame_after(frame),
            ..self
        }
    }

    /// Whether going on to the next level changes anything.
    pub open spec fn can_advance(self) -> bool {
        self.level matches Some(l) && l.is_more_levels()
    }

    /// The state after the player asked for the next level in `frame`.
    pub open spec fn advanced(self, frame: u64) -> RunningView {
        RunningView {
            level: if self.can_advance() {
                Some(LevelView { loaded: false, ..self.level->0.next() })
            } else {
                self.level
            },
            level_load_frame: load_frame_after(frame),
            ..self
        }
    }

    /// Whether the name and the description of the level are to be written.
    pub open spec fn level_text_due(self) -> bool {
        self.level_text_update_needed && self.level is Some && self.slots.name is Some
            && self.slots.description is Some
    }

    /// The state after the texts of the level were written, if that was due.
    pub open spec fn level_text_written(self) -> RunningView {
        if self.level_text_due() {
            RunningView { level_text_update_needed: false, ..self }
        } else {
            self
        }
    }

    /// `w` and the writes of the texts of the level, if they are due.
    pub open spec fn level_text_writes(self, w: Seq<UiChange>) -> Seq<UiChange> {
        if self.level_text_due() {
            w.push(UiChange::Text { entity: self.slots.name->0, text: self.level->0.name() }).push(
                UiChange::Text {
                    entity: self.slots.description->0,
                    text: self.level->0.description(),
                },
            )
        } else {
            w
        }
    }

    /// Whether there is a banner to show or to hide: the level was loaded of
    /// late and both its fields are known.
    pub open spec fn banner_due(self) -> bool {
        self.level_start is Some && self.slots.name is Some && self.slots.description is Some
    }

    /// Whether the banner still belongs on screen at the time `now`.
    pub open spec fn banner_fresh(self, now: u64) -> bool {
        now - self.level_start->0 < BANNER_MILLIS
    }

    /// The state after the banner was shown or hidden: once it is hidden, the
    /// time of loading is forgotten.
    pub open spec fn banner_settled(self, now: u64) -> RunningView {
        if self.banner_due() && !self.banner_fresh(now) {
            RunningView { level_start: None, ..self }
        } else {
            self
        }
    }

    /// `w` and the writes that show or hide the banner.
    pub open spec fn banner_writes(self, now: u64, w: Seq<UiChange>) -> Seq<UiChange> {
        if self.banner_due() {
            if self.banner_fresh(now) {
                w.push(UiChange::Show { entity: self.slots.name->0 }).push(
                    UiChange::Show { entity: self.slots.description->0 },
                )
            } else {
                w.push(UiChange::Hide { entity: self.slots.name->0 }).push(
                    UiChange::Hide { entity: self.slots.description->0 },
                )
            }
        } else {
            w
        }
    }

    /// `w` and the write of the frames per second.
    pub open spec fn fps_writes(self, fps_tenths: u32, w: Seq<UiChange>) -> Seq<UiChange> {
        match self.slots.fps {
            Some(entity) => w.push(UiChange::Text { entity, text: fps_text(fps_tenths) }),
            None => w,
        }
    }

    /// `w` and the writes of the counters. Nothing is written unless the
    /// field of the walkers spawned or that of the rate is known.
    pub open spec fn counter_writes(
        self,
        stats: SpawnStats,
        rate: Option<u32>,
        spawner: SpawnerConfig,
        w: Seq<UiChange>,
    ) -> Seq<UiChange> {
        if self.slots.spawned is Some || self.slots.rate is Some {
            let w1 = match self.slots.spawned {
                Some(entity) => w.push(UiChange::Text { entity, text: spawned_text(stats) }),
                None => w,
            };
            let w2 = match self.slots.killed {
                Some(entity) => w1.push(UiChange::Text { entity, text: killed_text(stats) }),
                None => w1,
            };
            let w3 = match self.slots.saved {
                Some(entity) => w2.push(UiChange::Text { entity, text: saved_text(stats) }),
                None => w2,
            };
            match (rate, self.slots.rate) {
                (Some(frequency), Some(entity)) => w3.push(
                    UiChange::Text {
                        entity,
                        text: rate_text(
                            rate_percent(
                                frequency,
                                spawner.frequency_min,
                                spawner.frequency_max,
                            ) as u32,
                        ),
                    },
                ),
                _ => w3,
            }
        } else {
            w
        }
    }

    /// The state after the update of one frame, in which `found` holds the
    /// entities of the text fields that were looked up.
    pub open spec fn updated(self, tick: Tick, found: UiSlots) -> RunningView {
        let s = self.checked(tick.frame, tick.now);
        let s = RunningView { slots: s.slots.merged(found), ..s };
        let s = s.level_text_written();
        if tick.frame % UI_UPDATE_FRAMES == 0 {
            s.banner_settled(tick.now)
        } else {
            s
        }
    }

    /// The counters after the update of one frame: they start anew when the
    /// level is loaded.
    pub open spec fn updated_stats(self, tick: Tick, stats: SpawnStats, spawner: SpawnerConfig)
        -> SpawnStats {
        if self.load_due(tick.frame) {
            SpawnStats::fresh(spawner.max_count)
        } else {
            stats
        }
    }

    /// What the update of one frame writes on screen, in this order: the name
    /// and the description of a level that was just loaded; then, every
    /// [`UI_UPDATE_FRAMES`] frames, the banner shown or hidden, the frames
    /// per second, and the counters.
    pub open spec fn update_writes(
        self,
        tick: Tick,
        found: UiSlots,
        stats: SpawnStats,
        spawner: SpawnerConfig,
    ) -> Seq<UiChange> {
        let s = self.checked(tick.frame, tick.now);
        let s = RunningView { slots: s.slots.merged(found), ..s };
        let w = s.level_text_writes(Seq::empty());
        let s = s.level_text_written();
        if tick.frame % UI_UPDATE_FRAMES == 0 {
            let w = s.banner_writes(tick.now, w);
            let s = s.banner_settled(tick.now);
            let w = s.fps_writes(tick.fps_tenths, w);
            s.counter_writes(self.updated_stats(tick, stats, spawner), tick.rate, spawner, w)
        } else {
            w
        }
    }
}

/// The running game.
pub struct RunningState {
    slots: UiSlots,
    level: Option<Level>,
    level_start: Option<u64>,
    level_text_update_needed: bool,
    level_load_frame: u64,
}

impl View for RunningState {
    type V = RunningView;

    closed spec fn view(&self) -> RunningView {
        RunningView {
            slots: self.slots,
            level: match self.level {
                Some(l) => Some(l@),
                None => None,
            },
            level_start: self.level_start,
            level_text_update_needed: self.level_text_update_needed,
            level_load_frame: self.level_load_frame,
        }
    }
}

impl RunningState {
    /// A game in which no level was chosen and no text field is known.
    pub fn new() -> (s: Self)
        ensures
            s@ == (RunningView {
                slots: UiSlots::unknown(),
                level: None,
                level_start: None,
                level_text_update_needed: false,
                level_load_frame: 0,
            }),
    {
        RunningState {
            slots: UiSlots::none(),
            level: None,
            level_start: None,
            level_text_update_needed: false,
            level_load_frame: 0,
        }
    }

    /// Where the content of the level stands in `frame`.
    pub fn load_state(&self, frame: u64) -> (s: LoadState)
        ensures
            s == self@.load_state(frame),
    {
        match &self.level {
            None => LoadState::Unloaded,
            Some(l) => if l.is_loaded() {
                LoadState::Loaded
            } else if self.level_load_frame < frame {
                LoadState::Loading
            } else {
                LoadState::Unloaded
            },
        }
    }

    /// The index of the level that is played, once a level was chosen.
    pub fn current_level(&self) -> (r: Option<usize>)
        ensures
            r is Some <==> self@.level is Some,
            r matches Some(i) ==> i == self@.level->0.current,
    {
        match &self.level {
            None => None,
            Some(l) => Some(l.current_level()),
        }
    }

    /// Where the walkers of the level that is played appear; the origin
    /// where no level was chosen.
    pub fn spawn_position(&self) -> (p: Vec2)
        ensures
            p == self@.spawn(),
    {
        match &self.level {
            None => Vec2 { x: 0, y: 0 },
            Some(l) => l.spawn_position(),
        }
    }

    /// Whether going on to the next level changes anything: a level follows
    /// the one that is played.
    pub fn can_advance(&self) -> (b: bool)
        ensures
            b == self@.can_advance(),
    {
        match &self.level {
            None => false,
            Some(l) => l.is_more_levels(),
        }
    }

    /// The entities behind the text fields, as far as they are known.
    pub fn slots(&self) -> (s: UiSlots)
        ensures
            s == self@.slots,
    {
        self.slots
    }

    /// Starts the game: the levels of `config` are set up and the first of
    /// them waits to be loaded.
    pub fn on_start(
        &mut self,
        config: &LevelsConfig,
        frame: u64,
        world: &mut World,
        physics: &mut PhysicsAdapter,
    )
        ensures
            final(self)@ == old(self)@.initialised(config@, frame),
            final(world)@ == unloaded_world(old(self)@, old(world)@),
            final(physics)@ == unloaded_physics(old(self)@, old(physics)@),
            old(physics)@.sound() ==> final(physics)@.sound(),
            tied(old(world)@, old(physics)@) ==> tied(final(world)@, final(physics)@),
    {
        self.initialise_level(config, frame, world, physics);
    }

    /// Reacts to a key: `Escape` ends the game, `R` asks for the
    /// configuration to be read again, `N` goes on to the next level.
    pub fn handle_event(
        &mut self,
        key: Key,
        frame: u64,
        world: &mut World,
        physics: &mut PhysicsAdapter,
    ) -> (r: Reaction)
        ensures
            r == match key {
                Key::Escape => Reaction::Quit,
                Key::R => Reaction::ReloadConfig,
                _ => Reaction::Nothing,
            },
            final(self)@ == if key == Key::N {
                old(self)@.advanced(frame)
            } else {
                old(self)@
            },
            final(world)@ == if key == Key::N && old(self)@.can_advance() {
                emptied(old(world)@)
            } else {
                old(world)@
            },
            final(physics)@ == if key == Key::N && old(self)@.can_advance() {
                old(physics)@.cleared()
            } else {
                old(physics)@
            },            old(physics)@.sound() ==> final(physics)@.sound(),
            tied(old(world)@, old(physics)@) ==> tied(final(world)@, final(physics)@),
    {
        match key {
            Key::Escape => Reaction::Quit,
            Key::R => Reaction::ReloadConfig,
            Key::N => {
                self.next_level(frame, world, physics);
                Reaction::Nothing
            },
            Key::Other => Reaction::Nothing,
        }
    }

    /// Takes in the outcome of reading the configuration again. Levels that
    /// were read replace those in `current` and are set up; where reading
    /// failed nothing changes, and the game goes on with what it had. Says
    /// whether the new levels were taken.
    pub fn config_reloaded(
        &mut self,
        loaded: Option<LevelsConfig>,
        current: &mut LevelsConfig,
        frame: u64,
        world: &mut World,
        physics: &mut PhysicsAdapter,
    ) -> (taken: bool)
        ensures
            taken == loaded is Some,
            loaded matches Some(c) ==> final(current)@ == c@ && final(self)@ == old(
                self,
            )@.initialised(c@, frame) && final(world)@ == unloaded_world(old(self)@, old(world)@)
                && final(physics)@ == unloaded_physics(old(self)@, old(physics)@),
            loaded is None ==> final(current)@ == old(current)@ && final(self)@ == old(self)@
                && final(world)@ == old(world)@ && final(physics)@ == old(physics)@,            old(physics)@.sound() ==> final(physics)@.sound(),
            tied(old(world)@, old(physics)@) ==> tied(final(world)@, final(physics)@),
    {
        match loaded {
            Some(c) => {
                *current = c;
                self.initialise_level(current, frame, world, physics);
                true
            },
            None => false,
        }
    }

    /// Remembers that a level asked for in `frame` may be loaded once the
    /// frames of settling have passed.
    pub fn update_load_level_frame(&mut self, frame: u64)
        ensures
            final(self)@ == (RunningView {
                level_load_frame: load_frame_after(frame),
                ..old(self)@
            }),
    {
        self.level_load_frame = frame.saturating_add(SETTLING_FRAMES);
    }

    /// Sets up the levels of `config`. A level that was being played is
    /// taken out of the world, and its place in the list carries over: it
    /// stays where the new list is long enough and falls back to the last
    /// level where it is not.
    pub fn initialise_level(
        &mut self,
        config: &LevelsConfig,
        frame: u64,
        world: &mut World,
        physics: &mut PhysicsAdapter,
    )
        ensures
            final(self)@ == old(self)@.initialised(config@, frame),
            final(world)@ == unloaded_world(old(self)@, old(world)@),
            final(physics)@ == unloaded_physics(old(self)@, old(physics)@),
            old(physics)@.sound() ==> final(physics)@.sound(),
            tied(old(world)@, old(physics)@) ==> tied(final(world)@, final(physics)@),
    {
        let mut start_level: Option<usize> = None;
        match &mut self.level {
            Some(level) => {
                level.unload(world, physics);
                start_level = Some(level.current_level());
            },
            None => {},
        }
        let mut level = Level::new(config);
        match start_level {
            Some(i) => {
                level.jump_to(i);
            },
            None => {},
        }
        self.level = Some(level);
        self.update_load_level_frame(frame);
    }

    /// Goes on to the next level, if there is one: the level that was played
    /// is taken out of the world and the next one waits to be loaded. At the
    /// last level only the wait begins anew.
    pub fn next_level(&mut self, frame: u64, world: &mut World, physics: &mut PhysicsAdapter)
        ensures
            final(self)@ == old(self)@.advanced(frame),
            final(world)@ == if old(self)@.can_advance() {
                emptied(old(world)@)
            } else {
                old(world)@
            },
            final(physics)@ == if old(self)@.can_advance() {
                old(physics)@.cleared()
            } else {
                old(physics)@
            },            old(physics)@.sound() ==> final(physics)@.sound(),
            tied(old(world)@, old(physics)@) ==> tied(final(world)@, final(physics)@),
    {
        match &mut self.level {
            Some(level) => {
                if level.is_more_levels() {
                    level.next();
                    level.unload(world, physics);
                }
            },
            None => {},
        }
        self.update_load_level_frame(frame);
    }

    /// Loads the level if it waits to be loaded and the frames of settling
    /// have passed: the counters start anew, the time is kept for the banner,
    /// and the texts of the level are due. Says whether it loaded.
    pub fn check_and_load_level(
        &mut self,
        frame: u64,
        now: u64,
        stats: &mut SpawnStats,
        spawner: &SpawnerConfig,
    ) -> (loaded: bool)
        ensures
            loaded == old(self)@.load_due(frame),
            final(self)@ == old(self)@.checked(frame, now),
            *final(stats) == if loaded {
                SpawnStats::fresh(spawner.max_count)
            } else {
                *old(stats)
            },
    {
        if self.level_load_frame >= frame {
            return false;
        }
        let mut loaded = false;
        match &mut self.level {
            Some(level) => {
                if !level.is_loaded() {
                    level.load(stats, spawner);
                    loaded = true;
                }
            },
            None => {},
        }
        if loaded {
            self.level_start = Some(now);
            self.level_text_update_needed = true;
        }
        loaded
    }

    /// Writes the name and the description of the level, once, as soon as
    /// both fields are known.
    fn write_level_text(&mut self, out: &mut Vec<UiWrite>)
        ensures
            final(self)@ == old(self)@.level_text_written(),
            changes(final(out)@) == old(self)@.level_text_writes(changes(old(out)@)),
    {
        if self.level_text_update_needed {
            match (&self.level, self.slots.name, self.slots.description) {
                (Some(level), Some(name_display), Some(description_display)) => {
                    push_write(out, UiWrite::Text { entity: name_display, text: level.name() });
                    push_write(
                        out,
                        UiWrite::Text { entity: description_display, text: level.description() },
                    );
                    self.level_text_update_needed = false;
                },
                _ => {},
            }
        }
    }

    /// Shows the banner while it is fresh and hides it afterwards.
    fn write_banner(&mut self, now: u64, out: &mut Vec<UiWrite>)
        ensures
            final(self)@ == old(self)@.banner_settled(now),
            changes(final(out)@) == old(self)@.banner_writes(now, changes(old(out)@)),
    {
        match (self.level_start, self.slots.name, self.slots.description) {
            (Some(level_start), Some(name_display), Some(description_display)) => {
                if now < level_start || now - level_start < BANNER_MILLIS {
                    push_write(out, UiWrite::Show { entity: name_display });
                    push_write(out, UiWrite::Show { entity: description_display });
                } else {
                    push_write(out, UiWrite::Hide { entity: name_display });
                    push_write(out, UiWrite::Hide { entity: description_display });
                    self.level_start = None;
                }
            },
            _ => {},
        }
    }

    /// Writes the frames per second and the counters.
    fn write_counters(
        &self,
        tick: &Tick,
        stats: &SpawnStats,
        spawner: &SpawnerConfig,
        out: &mut Vec<UiWrite>,
    )
        ensures
            changes(final(out)@) == self@.counter_writes(
                *stats,
                tick.rate,
                *spawner,
                self@.fps_writes(tick.fps_tenths, changes(old(out)@)),
            ),
    {
        match self.slots.fps {
            Some(entity) => {
                push_write(out, UiWrite::Text { entity, text: make_fps_text(tick.fps_tenths) });
            },
            None => {},
        }
        if self.slots.spawned.is_some() || self.slots.rate.is_some() {
            match self.slots.spawned {
                Some(entity) => {
                    push_write(out, UiWrite::Text { entity, text: make_spawned_text(stats) });
                },
                None => {},
            }
            match self.slots.killed {
                Some(entity) => {
                    push_write(out, UiWrite::Text { entity, text: make_killed_text(stats) });
                },
                None => {},
            }
            match self.slots.saved {
                Some(entity) => {
                    push_write(out, UiWrite::Text { entity, text: make_saved_text(stats) });
                },
                None => {},
            }
            match (tick.rate, self.slots.rate) {
                (Some(frequency), Some(entity)) => {
                    let percent = spawn_rate_percent(
                        frequency,
                        spawner.frequency_min,
                        spawner.frequency_max,
                    );
                    push_write(out, UiWrite::Text { entity, text: make_rate_text(percent) });
                },
                _ => {},
            }
        }
    }

    /// The work of one frame. Loads the level if that is due; takes from
    /// `found` the text fields that were not known before; writes the texts
    /// of a level that was just loaded; and every [`UI_UPDATE_FRAMES`]
    /// frames shows or hides the banner and brings the counters on screen up
    /// to date. Returns the writes in the order in which they are to be
    /// made.
    pub fn update(
        &mut self,
        tick: &Tick,
        found: &UiSlots,
        stats: &mut SpawnStats,
        spawner: &SpawnerConfig,
    ) -> (writes: Vec<UiWrite>)
        ensures
            final(self)@ == old(self)@.updated(*tick, *found),
            *final(stats) == old(self)@.updated_stats(*tick, *old(stats), *spawner),
            changes(writes@) == old(self)@.update_writes(*tick, *found, *old(stats), *spawner),
    {
        let mut out: Vec<UiWrite> = Vec::new();
        assert(changes(out@) =~= Seq::<UiChange>::empty());
        self.check_and_load_level(tick.frame, tick.now, stats, spawner);
        self.slots.merge(found);
        self.write_level_text(&mut out);
        if tick.frame % UI_UPDATE_FRAMES == 0 {
            self.write_banner(tick.now, &mut out);
            self.write_counters(tick, stats, spawner, &mut out);
        }
        out
    }
}

/// The world after the level that was played, if there was one, was taken
/// out of it.
pub open spec fn unloaded_world(s: RunningView, world: Entities) -> Entities {
    if s.level is Some {
        emptied(world)
    } else {
        world
    }
}

/// The physics world after the level that was played, if there was one, was
/// taken out of it.
pub open spec fn unloaded_physics(s: RunningView, physics: PhysicsView) -> PhysicsView {
    if s.level is Some {
        physics.cleared()
    } else {
        physics
    }
}

/// Setting the levels up again keeps the place in the list: the level that
/// was played is played again where the new list has it, and the last level
/// of the new list is played where the list has become too short.
pub proof fn lemma_reload_keeps_place(s: RunningView, config: Seq<LevelInfo>, frame: u64)
    requires
        s.level is Some,
        0 <= s.level->0.current,
    ensures
        s.initialised(config, frame).level is Some,
        s.level->0.current < config.len() ==> s.initialised(config, frame).level->0.current
            == s.level->0.current,
        0 < config.len() <= s.level->0.current ==> s.initialised(config, frame).level->0.current
            == config.len() - 1,
        config.len() == 0 ==> s.initialised(config, frame).level->0.current == 0,
{
}

/// A level is never loaded in the frame in which it was asked for, nor in
/// the frames of settling that follow: until then the level is unloaded,
/// whatever it was before. After them it is loaded with the next update.
pub proof fn lemma_settling_delay(s: RunningView, config: Seq<LevelInfo>, asked: u64, frame: u64)
    ensures
        frame <= asked + SETTLING_FRAMES ==> s.initialised(config, asked).load_state(frame)
            == LoadState::Unloaded,
        frame > asked + SETTLING_FRAMES ==> s.initialised(config, asked).load_state(frame)
            == LoadState::Loading,
        frame > asked + SETTLING_FRAMES ==> s.initialised(config, asked).checked(
            frame,
            0,
        ).load_state(frame) == LoadState::Loaded,
        frame <= asked + SETTLING_FRAMES && s.can_advance() ==> s.advanced(asked).load_state(frame)
            == LoadState::Unloaded,
{
}

} // verus!
