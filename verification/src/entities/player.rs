//! The player ship: where it starts, how it moves under key input while
//! staying on screen, and how it fires.

use crate::entities::{spec_basic_ship_bundle, BasicShipBundle, EntityPhysicsBundle};
use crate::geometry::{in_world, Vec2i, COORD_LIMIT};
use crate::shared::attributes::MovementSpeed;
use crate::shared::physics::{CollisionLayers, CollisionShape, LayerSet, RigidBody, WorldPhysicsLayer};
use crate::shared::weapons::{
    spec_weapon_fired, Projectile, ProjectileSpawn, WeaponState,
};
use crate::utils::RenderedAssetInfo;
use crate::{scaled_size, spec_scaled_size, spec_scaling_valid, spec_sprite_infos_valid};
use crate::{AssetScaling, SpriteInfos, WinSize, TICKS_PER_SECOND};
use vstd::prelude::*;

verus! {

broadcast use vstd::string::to_string_from_display_ensures_for_str;

/// The player's ship.
#[derive(Clone, Copy, PartialEq, Eq, Structural, Debug)]
pub struct Player;

/// A projectile fired by the player.
#[derive(Clone, Copy, PartialEq, Eq, Structural, Debug)]
pub struct FromPlayer;

/// Per-player bookkeeping.
#[derive(Debug)]
pub struct PlayerState {
    pub name: String,
}

/// The collision layers of the player: a friendly player that meets
/// enemies and hostile projectiles.
pub open spec fn spec_player_layers() -> CollisionLayers {
    CollisionLayers {
        groups: LayerSet {
            enemy: false,
            player: true,
            friendly: true,
            friendly_projectile: false,
            hostile_projectile: false,
            projectile: false,
            obstacle: false,
        },
        masks: LayerSet {
            enemy: true,
            player: false,
            friendly: false,
            friendly_projectile: false,
            hostile_projectile: true,
            projectile: false,
            obstacle: false,
        },
    }
}

/// Everything the host engine needs to spawn the player.
#[derive(Debug)]
pub struct PlayerBundle {
    pub pos: Vec2i,
    pub ship: BasicShipBundle,
    pub phys: EntityPhysicsBundle,
    pub state: PlayerState,
    pub asset_info: RenderedAssetInfo,
}

impl PlayerBundle {
    /// The player at the given spot: the stock ship loadout, a
    /// position-driven body with a box collider of half the sprite extent,
    /// the player collision layers, and the default pilot name.
    pub fn new(x: i64, y: i64, sprite_infos: &SpriteInfos) -> (b: PlayerBundle)
        requires
            spec_sprite_infos_valid(*sprite_infos),
        ensures
            b.pos == (Vec2i { x, y }),
            b.ship == spec_basic_ship_bundle(),
            b.phys == (EntityPhysicsBundle {
                rigid_body: RigidBody::KinematicPositionBased,
                shape: CollisionShape::Cuboid {
                    half_extends: Vec2i {
                        x: (sprite_infos.player.size.x / 2) as i64,
                        y: (sprite_infos.player.size.y / 2) as i64,
                    },
                },
                layers: spec_player_layers(),
            }),
            b.state.name@ == "Player 1"@,
            b.asset_info.size == sprite_infos.player.size,
    {
        let size = sprite_infos.player.size;
        let layers = CollisionLayers::none().with_group(WorldPhysicsLayer::Player).with_group(
            WorldPhysicsLayer::Friendly,
        ).with_mask(WorldPhysicsLayer::Enemy).with_mask(WorldPhysicsLayer::HostileProjectile);
        proof {
            assert(layers == spec_player_layers());
        }
        PlayerBundle {
            pos: Vec2i { x, y },
            ship: BasicShipBundle::default(),
            phys: EntityPhysicsBundle {
                rigid_body: RigidBody::KinematicPositionBased,
                shape: CollisionShape::Cuboid {
                    half_extends: Vec2i { x: size.x / 2, y: size.y / 2 },
                },
                layers,
            },
            state: PlayerState { name: "Player 1".to_string() },
            asset_info: RenderedAssetInfo { size },
        }
    }
}

/// Spawns the player a third of 75 pixels above the bottom edge, centred.
pub fn setup_player(win_size: &WinSize, sprite_infos: &SpriteInfos) -> (b: PlayerBundle)
    requires
        spec_sprite_infos_valid(*sprite_infos),
        0 <= win_size.h <= COORD_LIMIT,
    ensures
        b.pos == (Vec2i { x: 0, y: (-(win_size.h / 2) + 25_000) as i64 }),
        b.ship == spec_basic_ship_bundle(),
        b.phys == (EntityPhysicsBundle {
            rigid_body: RigidBody::KinematicPositionBased,
            shape: CollisionShape::Cuboid {
                half_extends: Vec2i {
                    x: (sprite_infos.player.size.x / 2) as i64,
                    y: (sprite_infos.player.size.y / 2) as i64,
                },
            },
            layers: spec_player_layers(),
        }),
        b.state.name@ == "Player 1"@,
        b.asset_info.size == sprite_infos.player.size,
{
    let bottom = -(win_size.h / 2);
    PlayerBundle::new(0, bottom + 25_000, sprite_infos)
}

/// The horizontal reach the ship may not leave: half the window, less
/// half the ship's own sprite width.
pub open spec fn spec_player_bound_x(win_size: WinSize, infos: SpriteInfos) -> int {
    win_size.w / 2 - infos.player.size.x / 2
}

/// Where one tick of key input puts the ship: a pressed left arrow pulls
/// it one per-tick step left, a pressed right arrow one step right (left
/// wins when both are down), but a step that would cross the window bound
/// is not taken.
pub open spec fn spec_player_moved(
    x: i64,
    step: int,
    bound: int,
    left: bool,
    right: bool,
) -> int {
    if left {
        if x - step > -bound {
            x - step
        } else {
            x as int
        }
    } else if right {
        if x + step < bound {
            x + step
        } else {
            x as int
        }
    } else {
        x as int
    }
}

/// One tick of player movement under the pressed keys.
pub fn player_movement(
    tf: &mut Vec2i,
    mov_spd: &MovementSpeed,
    left: bool,
    right: bool,
    win_size: &WinSize,
    sprite_infos: &SpriteInfos,
)
    requires
        in_world(*old(tf)),
        0 <= mov_spd.value <= COORD_LIMIT,
        0 <= win_size.w <= COORD_LIMIT,
        spec_sprite_infos_valid(*sprite_infos),
    ensures
        final(tf).y == old(tf).y,
        final(tf).x == spec_player_moved(
            old(tf).x,
            mov_spd.value / TICKS_PER_SECOND,
            spec_player_bound_x(*win_size, *sprite_infos),
            left,
            right,
        ),
{
    let step: i64 = mov_spd.value / TICKS_PER_SECOND;
    let bound: i64 = win_size.w / 2 - sprite_infos.player.size.x / 2;
    if left {
        let desired = tf.x - step;
        if desired > -bound {
            tf.x = desired;
        }
    } else if right {
        let desired = tf.x + step;
        if desired < bound {
            tf.x = desired;
        }
    }
}

/// The ship never leaves the window: a ship strictly within the bound is
/// still strictly within it after any tick of key input.
pub proof fn lemma_player_stays_in_bounds(
    x: i64,
    step: int,
    bound: int,
    left: bool,
    right: bool,
)
    requires
        -bound < x < bound,
        0 <= step,
    ensures
        -bound < spec_player_moved(x, step, bound, left, right) < bound,
{
}

/// The collision layers of a player shot: a friendly projectile that
/// meets obstacles and enemies.
pub open spec fn spec_friendly_projectile_layers() -> CollisionLayers {
    CollisionLayers {
        groups: LayerSet {
            enemy: false,
            player: false,
            friendly: false,
            friendly_projectile: true,
            hostile_projectile: false,
            projectile: true,
            obstacle: false,
        },
        masks: LayerSet {
            enemy: true,
            player: false,
            friendly: false,
            friendly_projectile: false,
            hostile_projectile: false,
            projectile: false,
            obstacle: true,
        },
    }
}

/// The shot the player fires: the player-laser sprite scaled down,
/// dropped at the ship's spot, flying straight up at the weapon's
/// projectile speed, with a capsule collider and the friendly-projectile
/// layers.
pub open spec fn spec_player_shot(
    pos: Vec2i,
    weapon: WeaponState,
    infos: SpriteInfos,
    scaling: AssetScaling,
) -> ProjectileSpawn {
    let size = spec_scaled_size(infos.player_laser.size, scaling.enemy_projectile);
    ProjectileSpawn {
        pos,
        size,
        velocity: Vec2i { x: 0, y: weapon.projectile_speed },
        layers: spec_friendly_projectile_layers(),
        rigid_body: RigidBody::KinematicVelocityBased,
        shape: CollisionShape::Capsule {
            half_segment: (size.y / 2) as i64,
            radius: (size.x / 2) as i64,
        },
        projectile: Projectile { damage: 1 },
        from_player: true,
    }
}

/// One tick of the trigger: with the fire key down and the weapon ready,
/// the shot spawns and the weapon records the time; otherwise nothing
/// happens.
pub fn player_shooting(
    pos: Vec2i,
    weapon: &mut WeaponState,
    now: u64,
    fire_pressed: bool,
    sprite_infos: &SpriteInfos,
    asset_scaling: &AssetScaling,
) -> (r: Option<ProjectileSpawn>)
    requires
        spec_sprite_infos_valid(*sprite_infos),
        spec_scaling_valid(*asset_scaling),
    ensures
        r is Some <==> old(weapon).ready && fire_pressed,
        old(weapon).ready && fire_pressed ==> {
            &&& r == Some(spec_player_shot(pos, *old(weapon), *sprite_infos, *asset_scaling))
            &&& *final(weapon) == spec_weapon_fired(*old(weapon), now)
        },
        !(old(weapon).ready && fire_pressed) ==> *final(weapon) == *old(weapon),
{
    if weapon.ready && fire_pressed {
        let size = scaled_size(sprite_infos.player_laser.size, asset_scaling.enemy_projectile);
        let layers = CollisionLayers::none().with_group(WorldPhysicsLayer::Projectile).with_group(
            WorldPhysicsLayer::FriendlyProjectile,
        ).with_mask(WorldPhysicsLayer::Obstacle).with_mask(WorldPhysicsLayer::Enemy);
        proof {
            assert(layers == spec_friendly_projectile_layers());
        }
        let shot = ProjectileSpawn {
            pos,
            size,
            velocity: Vec2i { x: 0, y: weapon.projectile_speed },
            layers,
            rigid_body: RigidBody::KinematicVelocityBased,
            shape: CollisionShape::Capsule { half_segment: size.y / 2, radius: size.x / 2 },
            projectile: Projectile { damage: 1 },
            from_player: true,
        };
        weapon.fired(now);
        Some(shot)
    } else {
        None
    }
}

} // verus!
