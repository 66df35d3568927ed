//! The things the game spawns: the player ship, the alien formation and
//! the obstacle blocks, with the movement and shooting systems that drive
//! them.

pub mod enemy;
pub mod obstacles;
pub mod player;

pub use enemy::Enemy;
pub use enemy::FromEnemy;
pub use obstacles::Obstacle;
pub use player::FromPlayer;
pub use player::Player;

use crate::shared::attributes::{Health, MovementSpeed, DEFAULT_MOVEMENT_SPEED};
use crate::shared::physics::{CollisionLayers, CollisionShape, RigidBody};
use crate::shared::weapons::{spec_fast_normal_weapon, WeaponState};
use vstd::prelude::*;

verus! {

/// What every ship starts with: health, a movement speed, and a weapon.
#[derive(Clone, Copy, PartialEq, Eq, Structural, Debug)]
pub struct BasicShipBundle {
    pub hp: Health,
    pub movement_speed: MovementSpeed,
    pub weapon: WeaponState,
}

/// The stock loadout: one hit point, the default speed, the quick weapon.
pub open spec fn spec_basic_ship_bundle() -> BasicShipBundle {
    BasicShipBundle {
        hp: Health { original_hp: 1, current_hp: 1 },
        movement_speed: MovementSpeed { value: DEFAULT_MOVEMENT_SPEED },
        weapon: spec_fast_normal_weapon(),
    }
}

impl Default for BasicShipBundle {
    /// One hit point, the default speed, and the quick weapon.
    fn default() -> (b: BasicShipBundle)
        ensures
            b == spec_basic_ship_bundle(),
    {
        BasicShipBundle {
            hp: Health::default(),
            movement_speed: MovementSpeed::default(),
            weapon: WeaponState::fast_normal_weapon(),
        }
    }
}

/// How an entity takes part in the physics world: its body kind, its
/// collider footprint, and its collision layers.
#[derive(Clone, Copy, PartialEq, Eq, Structural, Debug)]
pub struct EntityPhysicsBundle {
    pub rigid_body: RigidBody,
    pub shape: CollisionShape,
    pub layers: CollisionLayers,
}

} // verus!
