//! The plain data records that can be attached to an entity.

use vstd::prelude::*;
use crate::fixed::Fixed;
use crate::store::EntityId;
use crate::vector::{Vec2, Vec3};

verus! {

/// Four channels of a colour.
#[derive(Clone, Copy, Debug, PartialEq, Eq, Structural)]
pub struct Color {
    pub r: Fixed,
    pub g: Fixed,
    pub b: Fixed,
    pub a: Fixed,
}

/// Placement in the world.
///
/// `rotation` holds the facing as a direction in the plane of play: its `x`
/// and `y` are the unit heading, and the zero vector faces along the positive
/// `y` axis. A renderer takes the angle of that direction.
#[derive(Clone, Copy, Debug, PartialEq, Eq, Structural)]
pub struct Transform {
    pub position: Vec3,
    pub scale: Vec2,
    pub rotation: Vec3,
}

/// Appearance: a tint and a cell of the sprite atlas.
#[derive(Clone, Copy, Debug, PartialEq, Eq, Structural)]
pub struct Sprite {
    pub color: Color,
    pub sprite: Vec2,
}

/// Marks an entity as hostile.
#[derive(Clone, Copy, Debug, PartialEq, Eq, Structural)]
pub struct Enemy {}

/// Marks the entity that the input steers.
#[derive(Clone, Copy, Debug, PartialEq, Eq, Structural)]
pub struct Player {}

/// A health pool; an entity whose health is below zero is dead.
#[derive(Clone, Copy, Debug, PartialEq, Eq, Structural)]
pub struct Life {
    pub health: Fixed,
}

/// Motion: `acceleration` is added to the position each frame and decays at
/// the rate `deceleration`.
#[derive(Clone, Copy, Debug, PartialEq, Eq, Structural)]
pub struct Physics {
    pub acceleration: Vec3,
    pub deceleration: Fixed,
}

/// A fire-rate gate: `repeat` seconds must pass after `last` before the next shot.
#[derive(Clone, Copy, Debug, PartialEq, Eq, Structural)]
pub struct Weapon {
    pub repeat: Fixed,
    pub last: Fixed,
}

/// Health lost per second without any contact.
#[derive(Clone, Copy, Debug, PartialEq, Eq, Structural)]
pub struct SelfDamage {
    pub damage: Fixed,
}

/// Health taken from whatever the owner touches; with `once` the owner is
/// spent by its first frame of contact.
#[derive(Clone, Copy, Debug, PartialEq, Eq, Structural)]
pub struct ContactDamage {
    pub damage: Fixed,
    pub once: bool,
}

/// A periodic source of enemies around the entity `player`.
///
/// `spawnrate` is the base interval in seconds and `last` the time at which
/// the spawner fires next.
#[derive(Clone, Copy, Debug, PartialEq, Eq, Structural)]
pub struct Spawner {
    pub spawnrate: Fixed,
    pub last: Fixed,
    pub player: EntityId,
}

/// View parameters.
#[derive(Clone, Copy, Debug, PartialEq, Eq, Structural)]
pub struct Camera {
    pub eye: Vec3,
    pub target: Vec3,
    pub up: Vec3,
    pub aspect: Fixed,
    pub fovy: Fixed,
    pub znear: Fixed,
    pub zfar: Fixed,
}

/// Binds a camera to the entity it tracks.
#[derive(Clone, Copy, Debug, PartialEq, Eq, Structural)]
pub struct CameraFollow {
    pub entity: EntityId,
}

} // verus!
