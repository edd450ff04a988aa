//! What can be attached to an entity.

use vstd::prelude::*;
use crate::arena::Handle;
use crate::direction::Direction;
use crate::geometry::{Vec2, Vec3};

verus! {

/// Names an entity of the [`World`](crate::world::World).
#[derive(Clone, Copy, Debug, PartialEq, Eq, Hash, Structural)]
pub struct EntityId {
    pub handle: Handle,
}

/// Names a collider of the physics world.
#[derive(Clone, Copy, Debug, PartialEq, Eq, Hash, Structural)]
pub struct ColliderHandle {
    pub handle: Handle,
}

/// Names a rigid body of the physics world.
#[derive(Clone, Copy, Debug, PartialEq, Eq, Hash, Structural)]
pub struct BodyHandle {
    pub handle: Handle,
}

/// A unit that walks in one direction until something turns or ends it.
#[derive(Clone, Copy, Debug, PartialEq, Eq, Structural)]
pub struct Walker {
    pub direction: Direction,
}

/// Marks the walker that leads, and remembers how old she was when she took
/// over.
#[derive(Clone, Copy, Debug, PartialEq, Eq, Structural)]
pub struct Matriarch {
    pub age_when_promoted: u64,
}

/// How long an entity has lived, and how long it may live at most.
#[derive(Clone, Copy, Debug)]
pub struct Age {
    pub millis: u64,
    pub max: Option<u64>,
}

/// A lift: walkers that touch its sensor are launched in its direction.
#[derive(Clone, Copy, Debug, PartialEq, Eq, Structural)]
pub struct LaunchArea {
    pub direction: Direction,
}

/// A direction changer: walkers that touch its sensor are made to walk in
/// its direction.
#[derive(Clone, Copy, Debug, PartialEq, Eq, Structural)]
pub struct ChangeDirection {
    pub direction: Direction,
}

/// A velocity that is given to the entity's body on every tick, whatever the
/// physics made of it.
#[derive(Clone, Copy, Debug, PartialEq, Eq, Structural)]
pub struct ConstantVelocity {
    pub linear: Vec2,
    pub angular: i32,
}

/// An opaque colour with channels from 0 to 255.
#[derive(Clone, Copy, Debug, PartialEq, Eq, Structural)]
pub struct Color {
    pub r: u8,
    pub g: u8,
    pub b: u8,
    pub a: u8,
}

/// The solid that stands for an entity on screen.
#[derive(Clone, Copy, Debug, PartialEq, Eq, Structural)]
pub enum Solid {
    Cube,
    Sphere,
    /// A cone with that many sides.
    Cone(u32),
}

/// The shape from which an entity's mesh is made.
#[derive(Clone, Copy, Debug, PartialEq, Eq, Structural)]
pub struct Shape {
    pub solid: Solid,
    pub scale: Vec3,
}

/// The picture drawn for an entity that has no mesh.
#[derive(Clone, Copy, Debug, PartialEq, Eq, Structural)]
pub enum Sprite {
    Walker,
    Lift,
}

/// Everything an entity carries. A part that is `None` is not attached.
#[derive(Clone, Copy, Debug)]
pub struct Components {
    /// Where the entity is.
    pub position: Option<Vec3>,
    pub walker: Option<Walker>,
    pub matriarch: Option<Matriarch>,
    pub age: Option<Age>,
    pub launch_area: Option<LaunchArea>,
    pub change_direction: Option<ChangeDirection>,
    pub constant_velocity: Option<ConstantVelocity>,
    pub collider: Option<ColliderHandle>,
    pub color: Option<Color>,
    pub shape: Option<Shape>,
    pub sprite: Option<Sprite>,
    /// Whether a mesh was made for the shape.
    pub has_mesh: bool,
    /// Whether the entity is a camera that follows the matriarch.
    pub camera: bool,
}

impl Components {
    /// An entity with nothing attached.
    pub open spec fn nothing() -> Components {
        Components {
            position: None,
            walker: None,
            matriarch: None,
            age: None,
            launch_area: None,
            change_direction: None,
            constant_velocity: None,
            collider: None,
            color: None,
            shape: None,
            sprite: None,
            has_mesh: false,
            camera: false,
        }
    }

    /// An entity with nothing attached.
    pub fn empty() -> (c: Components)
        ensures
            c == Self::nothing(),
    {
        Components {
            position: None,
            walker: None,
            matriarch: None,
            age: None,
            launch_area: None,
            change_direction: None,
            constant_velocity: None,
            collider: None,
            color: None,
            shape: None,
            sprite: None,
            has_mesh: false,
            camera: false,
        }
    }
}

} // verus!
