//! The player of the earlier unit roster: the same bounded movement, and
//! a trigger that drops a velocity-carrying laser at the ship.

use crate::entities::player::{spec_player_bound_x, spec_player_moved};
use crate::geometry::{in_world, Vec2i, COORD_LIMIT};
use crate::units::weapons::{spec_fast_normal_weapon, spec_weapon_fired, WeaponState};
use crate::units::{Health, MovementSpeed, Velocity};
use crate::{spec_sprite_infos_valid, SpriteInfos, WinSize, TICKS_PER_SECOND};
use vstd::prelude::*;

verus! {

broadcast use vstd::string::to_string_from_display_ensures_for_str;

/// The pilot's name.
#[derive(Debug)]
pub struct PlayerName(pub String);

/// The player's ship.
#[derive(Clone, Copy, PartialEq, Eq, Structural, Debug)]
pub struct Player;

/// A projectile fired by the player.
#[derive(Clone, Copy, PartialEq, Eq, Structural, Debug)]
pub struct FromPlayer;

/// Everything the host engine needs to spawn this player: name, health,
/// a standing velocity, movement speed, and the main weapon.
#[derive(Debug)]
pub struct PlayerBundle {
    pub name: PlayerName,
    pub health: Health,
    pub velocity: Velocity,
    pub movement_speed: MovementSpeed,
    pub main_weapon_state: WeaponState,
}

impl Default for PlayerBundle {
    /// The stock player: one hit point, standing still, 250 pixels per
    /// second of movement, the quick weapon, named for the first seat.
    fn default() -> (b: PlayerBundle)
        ensures
            b.name.0@ == "Player 1"@,
            b.health == (Health { original_hp: 1, current_hp: 1 }),
            b.velocity.0 == (Vec2i { x: 0, y: 0 }),
            b.movement_speed.0 == 250_000,
            b.main_weapon_state == spec_fast_normal_weapon(),
    {
        PlayerBundle {
            name: PlayerName("Player 1".to_string()),
            health: Health::default(),
            velocity: Velocity::from(Vec2i { x: 0, y: 0 }),
            movement_speed: MovementSpeed(250_000),
            main_weapon_state: WeaponState::fast_normal_weapon(),
        }
    }
}

/// Spawns this player 30 pixels above the bottom edge, centred.
pub fn player_spawn(win_size: &WinSize) -> (r: (Vec2i, PlayerBundle))
    requires
        0 <= win_size.h <= COORD_LIMIT,
    ensures
        r.0 == (Vec2i { x: 0, y: (-(win_size.h / 2) + 30_000) as i64 }),
        r.1.name.0@ == "Player 1"@,
        r.1.health == (Health { original_hp: 1, current_hp: 1 }),
        r.1.velocity.0 == (Vec2i { x: 0, y: 0 }),
        r.1.movement_speed.0 == 250_000,
        r.1.main_weapon_state == spec_fast_normal_weapon(),
{
    let bottom = -(win_size.h / 2);
    (Vec2i { x: 0, y: bottom + 30_000 }, PlayerBundle::default())
}

/// One tick of player movement under the pressed keys, clamped to the
/// window as in the newer roster.
pub fn player_movement(
    tf: &mut Vec2i,
    mov_spd: &MovementSpeed,
    left: bool,
    right: bool,
    win_size: &WinSize,
    sprite_infos: &SpriteInfos,
)
    requires
        in_world(*old(tf)),
        0 <= mov_spd.0 <= COORD_LIMIT,
        0 <= win_size.w <= COORD_LIMIT,
        spec_sprite_infos_valid(*sprite_infos),
    ensures
        final(tf).y == old(tf).y,
        final(tf).x == spec_player_moved(
            old(tf).x,
            mov_spd.0 / TICKS_PER_SECOND,
            spec_player_bound_x(*win_size, *sprite_infos),
            left,
            right,
        ),
{
    let step: i64 = mov_spd.0 / TICKS_PER_SECOND;
    let bound: i64 = win_size.w / 2 - sprite_infos.player.size.x / 2;
    if left {
        let desired = tf.x - step;
        if desired > -bound {
            tf.x = desired;
        }
    } else if right {
        let desired = tf.x + step;
        if desired < bound {
            tf.x = desired;
        }
    }
}

/// A laser as this roster spawns it: at the ship (plus a horizontal
/// offset), drawn at half scale, carrying its velocity.
#[derive(Clone, Copy, PartialEq, Eq, Structural, Debug)]
pub struct LaserSpawn {
    pub pos: Vec2i,
    pub scale: Vec2i,
    pub velocity: Vec2i,
}

/// The laser the trigger drops: at the ship, half scale, flying straight
/// up at the weapon's projectile speed.
pub open spec fn spec_laser_spawn(pos: Vec2i, weapon: WeaponState) -> LaserSpawn {
    LaserSpawn {
        pos,
        scale: Vec2i { x: 500, y: 500 },
        velocity: Vec2i { x: 0, y: weapon.projectile_speed },
    }
}

/// One tick of the trigger: with the fire key down and the weapon ready,
/// a laser spawns at the ship and the weapon records the time; otherwise
/// nothing happens.
pub fn player_shooting(pos: Vec2i, weapon: &mut WeaponState, now: u64, fire_pressed: bool) -> (r:
    Option<LaserSpawn>)
    ensures
        r is Some <==> old(weapon).ready && fire_pressed,
        old(weapon).ready && fire_pressed ==> {
            &&& r == Some(spec_laser_spawn(pos, *old(weapon)))
            &&& *final(weapon) == spec_weapon_fired(*old(weapon), now)
        },
        !(old(weapon).ready && fire_pressed) ==> *final(weapon) == *old(weapon),
{
    if weapon.ready && fire_pressed {
        let shot = LaserSpawn {
            pos,
            scale: Vec2i { x: 500, y: 500 },
            velocity: Vec2i { x: 0, y: weapon.projectile_speed },
        };
        weapon.fired(now);
        Some(shot)
    } else {
        None
    }
}

} // verus!
