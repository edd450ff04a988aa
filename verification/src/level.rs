//! The levels of a game and which of them is played.

use vstd::prelude::*;
use crate::config::{LevelConfig, LevelInfo, LevelsConfig, SpawnerConfig, level_infos};
use crate::geometry::Vec2;
use crate::ownership::tied;
use crate::physics::PhysicsAdapter;
use crate::stats::SpawnStats;
use crate::world::World;
use crate::arena::emptied;

verus! {

/// The index nearest to `index` that names a level of a list of `count`
/// levels; 0 for an empty list.
pub open spec fn clamp_index(index: int, count: int) -> int {
    if count <= 0 {
        0
    } else if index >= count {
        count - 1
    } else {
        index
    }
}

/// What a [`Level`] holds: the levels in order, the index of the one that
/// is played, and whether its content is in the world.
pub struct LevelView {
    pub levels: Seq<LevelInfo>,
    pub current: int,
    pub loaded: bool,
}

impl LevelView {
    /// Whether a level follows the one that is played.
    pub open spec fn is_more_levels(self) -> bool {
        self.current + 1 < self.levels.len()
    }

    /// These levels with the level `index` as the one played, or the last
    /// level if there are not so many.
    pub open spec fn jumped(self, index: int) -> LevelView {
        LevelView { current: clamp_index(index, self.levels.len() as int), ..self }
    }

    /// The level after this one, where there is one.
    pub open spec fn next(self) -> LevelView {
        if self.is_more_levels() {
            LevelView { current: self.current + 1, ..self }
        } else {
            self
        }
    }

    /// The name of the level that is played; empty where there is none.
    pub open spec fn name(self) -> Seq<char> {
        if 0 <= self.current < self.levels.len() {
            self.levels[self.current].name
        } else {
            Seq::empty()
        }
    }

    /// The description of the level that is played; empty where there is
    /// none.
    pub open spec fn description(self) -> Seq<char> {
        if 0 <= self.current < self.levels.len() {
            self.levels[self.current].description
        } else {
            Seq::empty()
        }
    }

    /// Where the walkers of the level that is played appear; the origin
    /// where there is no level.
    pub open spec fn spawn(self) -> Vec2 {
        if 0 <= self.current < self.levels.len() {
            self.levels[self.current].spawn
        } else {
            Vec2 { x: 0, y: 0 }
        }
    }
}

/// The sequence of a game's levels, with the place the player has reached.
pub struct Level {
    levels: Vec<LevelConfig>,
    current: usize,
    loaded: bool,
}

impl View for Level {
    type V = LevelView;

    closed spec fn view(&self) -> LevelView {
        LevelView {
            levels: level_infos(self.levels@),
            current: self.current as int,
            loaded: self.loaded,
        }
    }
}

impl Level {
    /// The levels of `config`, at the first of them, not loaded.
    pub fn new(config: &LevelsConfig) -> (l: Self)
        ensures
            l@ == (LevelView { levels: config@, current: 0, loaded: false }),
    {
        let mut levels: Vec<LevelConfig> = Vec::new();
        let n = config.levels.len();
        let mut i: usize = 0;
        while i < n
            invariant
                n == config.levels@.len(),
                i <= n,
                levels@.len() == i,
                forall|j: int| 0 <= j < i ==> (#[trigger] levels@[j])@ == config.levels@[j]@,
            decreases n - i,
        {
            levels.push(config.levels[i].duplicate());
            i += 1;
        }
        assert(level_infos(levels@) =~= config@);
        Level { levels, current: 0, loaded: false }
    }

    /// Goes to the level `index`, or to the last one if there are not so
    /// many.
    pub fn jump_to(&mut self, index: usize)
        ensures
            final(self)@ == old(self)@.jumped(index as int),
    {
        let n = self.levels.len();
        if n == 0 {
            self.current = 0;
        } else if index >= n {
            self.current = n - 1;
        } else {
            self.current = index;
        }
    }

    /// The index of the level that is played.
    pub fn current_level(&self) -> (i: usize)
        ensures
            i == self@.current,
    {
        self.current
    }

    /// The number of levels.
    pub fn level_count(&self) -> (n: usize)
        ensures
            n == self@.levels.len(),
    {
        self.levels.len()
    }

    /// Whether a level follows the one that is played.
    pub fn is_more_levels(&self) -> (b: bool)
        ensures
            b == self@.is_more_levels(),
    {
        self.current < self.levels.len() && self.current + 1 < self.levels.len()
    }

    /// Goes on to the next level. At the last level nothing changes: the
    /// game does not start over.
    pub fn next(&mut self)
        ensures
            final(self)@ == old(self)@.next(),
    {
        let n = self.levels.len();
        if self.current < n && self.current + 1 < n {
            self.current = self.current + 1;
        }
    }

    /// Whether the content of the level is in the world.
    pub fn is_loaded(&self) -> (b: bool)
        ensures
            b == self@.loaded,
    {
        self.loaded
    }

    /// Marks the level as loaded and starts the counters anew, for as many
    /// walkers as the spawner will make.
    pub fn load(&mut self, stats: &mut SpawnStats, spawner: &SpawnerConfig)
        ensures
            final(self)@ == (LevelView { loaded: true, ..old(self)@ }),
            *final(stats) == SpawnStats::fresh(spawner.max_count),
    {
        self.loaded = true;
        stats.reset(spawner.max_count);
    }

    /// Takes the level out of the world: every entity is destroyed and the
    /// physics world is emptied with them.
    pub fn unload(&mut self, world: &mut World, physics: &mut PhysicsAdapter)
        ensures
            final(self)@ == (LevelView { loaded: false, ..old(self)@ }),
            final(world)@ == emptied(old(world)@),
            final(physics)@ == old(physics)@.cleared(),
            final(physics)@.sound(),
            tied(final(world)@, final(physics)@),
    {
        self.loaded = false;
        world.clear();
        physics.clear();
    }

    /// The name of the level that is played; empty where there is none.
    pub fn name(&self) -> (s: String)
        ensures
            s@ == self@.name(),
    {
        if self.current < self.levels.len() {
            self.levels[self.current].name.clone()
        } else {
            String::new()
        }
    }

    /// The description of the level that is played; empty where there is
    /// none.
    pub fn description(&self) -> (s: String)
        ensures
            s@ == self@.description(),
    {
        if self.current < self.levels.len() {
            self.levels[self.current].description.clone()
        } else {
            String::new()
        }
    }

    /// Where the walkers of the level that is played appear; the origin
    /// where there is no level.
    pub fn spawn_position(&self) -> (p: Vec2)
        ensures
            p == self@.spawn(),
    {
        if self.current < self.levels.len() {
            self.levels[self.current].spawn
        } else {
            Vec2 { x: 0, y: 0 }
        }
    }
}

/// After a jump to a level that exists, that level is the one played, and
/// nothing else has changed.
pub proof fn lemma_jump_round_trip(l: LevelView, index: int)
    requires
        0 <= index < l.levels.len(),
    ensures
        l.jumped(index).current == index,
        l.jumped(index).levels == l.levels,
        l.jumped(index).loaded == l.loaded,
{
}

/// A jump beyond the last level ends at the last level; in a game without
/// levels it ends at 0.
pub proof fn lemma_jump_clamps(l: LevelView, index: int)
    requires
        index >= l.levels.len(),
    ensures
        l.levels.len() > 0 ==> l.jumped(index).current == l.levels.len() - 1,
        l.levels.len() == 0 ==> l.jumped(index).current == 0,
{
}

} // verus!
