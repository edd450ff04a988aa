//! Deterministic simulation core of a crowd game: walkers are spawned, one of
//! them leads as matriarch, the player drops lifts, rams and direction
//! changers on her, and levels follow one another.
//!
//! Every quantity is an integer: time in milliseconds, lengths and speeds in
//! thousandths of a world unit. The library draws nothing, reads no file and
//! steps no physics: it keeps the entities, the record of the colliders it
//! asked for, the commands and the counters, and says for every tick what
//! becomes of them.
//!
//! [`game::Game`] is the whole game, frame by frame.
//! [`simulation::Simulation`] runs a whole tick. The systems it runs can
//! also be run one by one: [`spawner`], [`lifecycle`], [`velocity`],
//! [`drop_lift`], [`drop_ram`], [`drop_direction_changer`] with
//! [`resolution`], [`camera_movement`] and [`shape_visualizer`].
//! [`running`] decides when a level is loaded and what the screen shows.

pub mod direction;
pub mod geometry;
pub mod search;
pub mod arena;
pub mod stats;
pub mod config;
pub mod components;
pub mod physics;
pub mod world;
pub mod ownership;
pub mod text;
pub mod level;
pub mod ui;
pub mod running;
pub mod command;
pub mod intervention;
pub mod resolution;
pub mod drop_lift;
pub mod drop_ram;
pub mod drop_direction_changer;
pub mod camera_movement;
pub mod lifecycle;
pub mod spawner;
pub mod shape_visualizer;
pub mod velocity;
pub mod simulation;
pub mod game;
