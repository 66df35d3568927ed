//! Core logic of a small 2D fixed-timestep arcade shooter, verified.
//!
//! The library holds the gameplay rules: enemy formation movement, weapon
//! cooldowns, projectile spawning, and the collision-to-damage resolution
//! pipeline in which entities take damage on collision, die at zero health,
//! and are despawned exactly once. Rendering, windowing, asset loading and
//! physics broad-phase detection belong to a host engine and stay outside;
//! the library works on plain values: integer fixed-point coordinates
//! (milli-pixels), times in milliseconds, and entity identifiers.

pub mod entities;
pub mod geometry;
pub mod shared;
pub mod units;
pub mod utils;

use crate::geometry::{valid_size, Vec2i};
use vstd::prelude::*;

verus! {

/// Window width in milli-pixels (600 pixels).
pub const WINDOW_WIDTH: i64 = 600_000;

/// Window height in milli-pixels (600 pixels).
pub const WINDOW_HEIGHT: i64 = 600_000;

/// The game advances on a fixed timestep of 1/60 of a second.
pub const TICKS_PER_SECOND: i64 = 60;

/// Running count of enemies alive, kept by the respawn and hit systems.
#[derive(Clone, Copy, PartialEq, Eq, Structural, Debug)]
pub struct Game {
    pub active_enemies: i32,
}

impl Default for Game {
    /// A fresh game starts with no enemies counted.
    fn default() -> (g: Game)
        ensures
            g.active_enemies == 0,
    {
        Game { active_enemies: 0 }
    }
}

/// Window dimensions handed to the systems that clamp movement to the screen.
pub struct WinSize {
    pub w: i64,
    pub h: i64,
}

impl Default for WinSize {
    /// The default window is 600 by 600 pixels.
    fn default() -> (s: WinSize)
        ensures
            s.w == WINDOW_WIDTH,
            s.h == WINDOW_HEIGHT,
    {
        WinSize { w: WINDOW_WIDTH, h: WINDOW_HEIGHT }
    }
}

/// The rendered extent of one loaded sprite, in milli-pixels. The host
/// engine learns it from the image file; the gameplay systems only read it.
#[derive(Clone, Copy, PartialEq, Eq, Structural, Debug)]
pub struct SpriteInfo {
    pub size: Vec2i,
}

/// The extents of every sprite the game uses.
#[derive(Clone, Copy, PartialEq, Eq, Structural, Debug)]
pub struct SpriteInfos {
    pub player: SpriteInfo,
    pub player_laser: SpriteInfo,
    pub red_enemy: SpriteInfo,
    pub green_enemy: SpriteInfo,
    pub yellow_enemy: SpriteInfo,
    pub alien_laser: SpriteInfo,
    pub top_alien: SpriteInfo,
}

/// All sprite extents lie within the world bound.
pub open spec fn spec_sprite_infos_valid(s: SpriteInfos) -> bool {
    &&& valid_size(s.player.size)
    &&& valid_size(s.player_laser.size)
    &&& valid_size(s.red_enemy.size)
    &&& valid_size(s.green_enemy.size)
    &&& valid_size(s.yellow_enemy.size)
    &&& valid_size(s.alien_laser.size)
    &&& valid_size(s.top_alien.size)
}

/// How projectile sprites are scaled down when spawned, per axis, in
/// thousandths: 500 means half the sprite's rendered extent.
#[derive(Clone, Copy, PartialEq, Eq, Structural, Debug)]
pub struct AssetScaling {
    pub player_projectile: Vec2i,
    pub enemy_projectile: Vec2i,
}

impl Default for AssetScaling {
    /// Projectiles are drawn at half their sprite size.
    fn default() -> (s: AssetScaling)
        ensures
            s.player_projectile == (Vec2i { x: 500, y: 500 }),
            s.enemy_projectile == (Vec2i { x: 500, y: 500 }),
    {
        AssetScaling {
            player_projectile: Vec2i { x: 500, y: 500 },
            enemy_projectile: Vec2i { x: 500, y: 500 },
        }
    }
}

/// Scales never enlarge: each factor lies between zero and one thousand
/// thousandths.
pub open spec fn spec_scaling_valid(s: AssetScaling) -> bool {
    &&& 0 <= s.player_projectile.x <= 1000
    &&& 0 <= s.player_projectile.y <= 1000
    &&& 0 <= s.enemy_projectile.x <= 1000
    &&& 0 <= s.enemy_projectile.y <= 1000
}

/// A sprite extent scaled by per-axis thousandths, rounded toward zero.
pub open spec fn spec_scaled_size(size: Vec2i, scale: Vec2i) -> Vec2i {
    Vec2i { x: ((size.x * scale.x) / 1000) as i64, y: ((size.y * scale.y) / 1000) as i64 }
}

/// Scales a sprite extent by per-axis thousandths.
pub fn scaled_size(size: Vec2i, scale: Vec2i) -> (r: Vec2i)
    requires
        valid_size(size),
        0 <= scale.x <= 1000,
        0 <= scale.y <= 1000,
    ensures
        r == spec_scaled_size(size, scale),
        valid_size(r),
{
    proof {
        assert(0 <= size.x * scale.x <= 1_000_000_000_000) by (nonlinear_arith)
            requires
                0 <= size.x <= 1_000_000_000,
                0 <= scale.x <= 1000,
        ;
        assert(0 <= size.y * scale.y <= 1_000_000_000_000) by (nonlinear_arith)
            requires
                0 <= size.y <= 1_000_000_000,
                0 <= scale.y <= 1000,
        ;
    }
    Vec2i { x: (size.x * scale.x) / 1000, y: (size.y * scale.y) / 1000 }
}

} // verus!
