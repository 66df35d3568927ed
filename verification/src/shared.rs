//! Components and systems shared by every kind of unit: health and speed
//! attributes, weapon state, and the collision-resolution pipeline.

pub mod attributes;
pub mod physics;
pub mod weapons;

pub use attributes::Health;
pub use attributes::MovementSpeed;
pub use physics::WorldPhysicsLayer;
pub use weapons::Projectile;
pub use weapons::WeaponState;
