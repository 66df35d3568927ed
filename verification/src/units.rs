//! An earlier cut of the unit roster, kept alongside the newer modules:
//! free-roaming enemies that respawn at random spots, a player that fires
//! velocity-carrying projectiles, and the systems that move them.

pub mod enemy;
pub mod player;
pub mod weapons;

use crate::geometry::Vec2i;
use vstd::prelude::*;

verus! {

/// How fast a unit moves, in milli-pixels per second.
#[derive(Clone, Copy, PartialEq, Eq, Structural, Debug)]
pub struct MovementSpeed(pub i64);

/// Hit points of a unit: what it started with and what is left.
#[derive(Clone, Copy, PartialEq, Eq, Structural, Debug)]
pub struct Health {
    pub original_hp: u32,
    pub current_hp: u32,
}

impl Default for Health {
    /// Most units start with a single hit point.
    fn default() -> (h: Health)
        ensures
            h.original_hp == 1,
            h.current_hp == 1,
    {
        Health { original_hp: 1, current_hp: 1 }
    }
}

/// A velocity in milli-pixels per second.
#[derive(Clone, Copy, PartialEq, Eq, Structural, Debug)]
pub struct Velocity(pub Vec2i);

impl Default for Velocity {
    /// A stock projectile flies straight up at 600 pixels per second.
    fn default() -> (v: Velocity)
        ensures
            v.0 == (Vec2i { x: 0, y: 600_000 }),
    {
        Velocity(Vec2i { x: 0, y: 600_000 })
    }
}

impl Velocity {
    pub fn from(vel: Vec2i) -> (v: Velocity)
        ensures
            v.0 == vel,
    {
        Velocity(vel)
    }

    /// The stock projectile velocity: straight up at 600 pixels per second.
    pub fn normal_projectile() -> (v: Velocity)
        ensures
            v.0 == (Vec2i { x: 0, y: 600_000 }),
    {
        Velocity(Vec2i { x: 0, y: 600_000 })
    }
}

} // verus!
