//! The settings of a game, as read from its configuration.
//!
//! Durations are in milliseconds; lengths, speeds and densities in
//! thousandths of a unit.

use vstd::prelude::*;
use crate::geometry::{Vec2, Vec3};

verus! {

/// How much of what happens is written to the log.
#[derive(Clone, Copy, Debug, PartialEq, Eq, Structural)]
pub enum LogLevel {
    Off,
    Error,
    Warn,
    Info,
    Debug,
    Trace,
}

/// What a walker is given when it is spawned.
#[derive(Clone, Copy, Debug, PartialEq, Eq, Structural)]
pub struct PawnConfig {
    /// Walking speed per second.
    pub speed: i32,
    pub width: i32,
    pub height: i32,
    pub density: u32,
}

/// Sizes and timings of what the player can drop on the matriarch.
#[derive(Clone, Copy, Debug, PartialEq, Eq, Structural)]
pub struct PhysicsConfig {
    pub lift_width: i32,
    pub lift_height: i32,
    pub change_direction_width: i32,
    pub change_direction_height: i32,
    /// How long after her promotion a matriarch ignores commands.
    pub matriarch_grace_period: u64,
    pub ram_density: u32,
    /// Velocity of a ram that moves to the right.
    pub ram_velocity: Vec2,
    /// How long a ram lives.
    pub ram_life: u64,
}

/// How the camera follows.
#[derive(Clone, Copy, Debug)]
pub struct CameraConfig {
    /// Where the camera looks, relative to the matriarch; the horizontal part
    /// lies ahead of her.
    pub offset: Vec2,
    /// Share of the remaining distance covered per second, in thousandths.
    pub convergence_speed: u32,
    /// Depth covered per second at full zoom.
    pub zoom_speed: i32,
    pub z_min: i32,
    pub z_max: i32,
    /// Where the camera rests once a walker was saved.
    pub final_position: Option<Vec3>,
}

/// Where, how many and how often walkers are spawned.
#[derive(Clone, Copy, Debug, PartialEq, Eq, Structural)]
pub struct SpawnerConfig {
    /// Extent of the area in which walkers appear.
    pub size: Vec2,
    pub max_count: u64,
    /// Shortest time between two walkers.
    pub frequency_min: u32,
    /// Longest time between two walkers.
    pub frequency_max: u32,
}

/// One level: what the player is told about it, and where its walkers
/// appear.
#[derive(Debug)]
pub struct LevelConfig {
    pub name: String,
    pub description: String,
    /// The lower left corner of the area in which walkers appear.
    pub spawn: Vec2,
}

/// A level with its texts as sequences of characters.
pub struct LevelInfo {
    pub name: Seq<char>,
    pub description: Seq<char>,
    pub spawn: Vec2,
}

impl View for LevelConfig {
    type V = LevelInfo;

    open spec fn view(&self) -> LevelInfo {
        LevelInfo { name: self.name@, description: self.description@, spawn: self.spawn }
    }
}

impl LevelConfig {
    /// A copy of this level.
    pub fn duplicate(&self) -> (c: LevelConfig)
        ensures
            c@ == self@,
    {
        LevelConfig {
            name: self.name.clone(),
            description: self.description.clone(),
            spawn: self.spawn,
        }
    }
}

/// The levels of a game, in the order in which they are played.
#[derive(Debug)]
pub struct LevelsConfig {
    pub levels: Vec<LevelConfig>,
}

/// Each level of a list.
pub open spec fn level_infos(levels: Seq<LevelConfig>) -> Seq<LevelInfo> {
    Seq::new(levels.len(), |i: int| levels[i]@)
}

impl View for LevelsConfig {
    type V = Seq<LevelInfo>;

    open spec fn view(&self) -> Seq<LevelInfo> {
        level_infos(self.levels@)
    }
}

/// All the settings of a game.
#[derive(Debug)]
pub struct GameConfig {
    pub log_level: LogLevel,
    pub pawn: PawnConfig,
    pub physics: PhysicsConfig,
    pub camera: CameraConfig,
    pub spawner: SpawnerConfig,
    pub levels: LevelsConfig,
}

impl Default for PawnConfig {
    fn default() -> (c: Self)
        ensures
            c == (PawnConfig { speed: 20_000, width: 1_000, height: 2_000, density: 1_000 }),
    {
        PawnConfig { speed: 20_000, width: 1_000, height: 2_000, density: 1_000 }
    }
}

impl Default for PhysicsConfig {
    fn default() -> (c: Self)
        ensures
            c == (PhysicsConfig {
                lift_width: 40_000,
                lift_height: 20_000,
                change_direction_width: 20_000,
                change_direction_height: 40_000,
                matriarch_grace_period: 2_000,
                ram_density: 10_000,
                ram_velocity: Vec2 { x: 100_000, y: 0 },
                ram_life: 5_000,
            }),
    {
        PhysicsConfig {
            lift_width: 40_000,
            lift_height: 20_000,
            change_direction_width: 20_000,
            change_direction_height: 40_000,
            matriarch_grace_period: 2_000,
            ram_density: 10_000,
            ram_velocity: Vec2 { x: 100_000, y: 0 },
            ram_life: 5_000,
        }
    }
}

impl Default for CameraConfig {
    fn default() -> (c: Self)
        ensures
            c == (CameraConfig {
                offset: Vec2 { x: 50_000, y: 20_000 },
                convergence_speed: 2_000,
                zoom_speed: 100_000,
                z_min: 50_000,
                z_max: 500_000,
                final_position: None,
            }),
    {
        CameraConfig {
            offset: Vec2 { x: 50_000, y: 20_000 },
            convergence_speed: 2_000,
            zoom_speed: 100_000,
            z_min: 50_000,
            z_max: 500_000,
            final_position: None,
        }
    }
}

impl Default for SpawnerConfig {
    fn default() -> (c: Self)
        ensures
            c == (SpawnerConfig {
                size: Vec2 { x: 10_000, y: 10_000 },
                max_count: 100,
                frequency_min: 1_000,
                frequency_max: 2_000,
            }),
    {
        SpawnerConfig {
            size: Vec2 { x: 10_000, y: 10_000 },
            max_count: 100,
            frequency_min: 1_000,
            frequency_max: 2_000,
        }
    }
}

impl Default for LevelsConfig {
    fn default() -> (c: Self)
        ensures
            c.levels@.len() == 0,
    {
        LevelsConfig { levels: Vec::new() }
    }
}

impl Default for GameConfig {
    /// The settings of a game that was configured nowhere: the log at
    /// `Debug`, every part at its own default, and no level.
    fn default() -> (c: Self)
        ensures
            c.log_level == LogLevel::Debug,
            c.pawn == (PawnConfig { speed: 20_000, width: 1_000, height: 2_000, density: 1_000 }),
            c.physics.matriarch_grace_period == 2_000,
            c.physics.ram_life == 5_000,
            c.physics.ram_density == 10_000,
            c.physics.ram_velocity == (Vec2 { x: 100_000, y: 0 }),
            c.physics.lift_width == 40_000 && c.physics.lift_height == 20_000,
            c.physics.change_direction_width == 20_000 && c.physics.change_direction_height
                == 40_000,
            c.camera.offset == (Vec2 { x: 50_000, y: 20_000 }),
            c.camera.convergence_speed == 2_000 && c.camera.zoom_speed == 100_000,
            c.camera.z_min == 50_000 && c.camera.z_max == 500_000,
            c.camera.final_position is None,
            c.spawner == (SpawnerConfig {
                size: Vec2 { x: 10_000, y: 10_000 },
                max_count: 100,
                frequency_min: 1_000,
                frequency_max: 2_000,
            }),
            c.levels.levels@.len() == 0,
    {
        GameConfig {
            log_level: LogLevel::Debug,
            pawn: PawnConfig::default(),
            physics: PhysicsConfig::default(),
            camera: CameraConfig::default(),
            spawner: SpawnerConfig::default(),
            levels: LevelsConfig::default(),
        }
    }
}

} // verus!
