//! The alien formation: how it is laid out at startup, how it sweeps
//! sideways and steps down at the screen edge, and how a few randomly
//! chosen aliens fire each volley.

use crate::entities::{BasicShipBundle, EntityPhysicsBundle};
use crate::geometry::{in_world, Vec2i, COORD_LIMIT};
use crate::shared::attributes::MovementSpeed;
use crate::shared::physics::{CollisionLayers, CollisionShape, LayerSet, RigidBody, WorldPhysicsLayer};
use crate::shared::weapons::{Projectile, ProjectileSpawn, WeaponState};
use crate::utils::RenderedAssetInfo;
use crate::{spec_scaled_size, spec_scaling_valid, spec_sprite_infos_valid, scaled_size};
use crate::{AssetScaling, SpriteInfos, WinSize, TICKS_PER_SECOND};
use rand::seq::SliceRandom;
use vstd::prelude::*;

verus! {

/// The three sprite rows of the formation.
#[derive(Clone, Copy, PartialEq, Eq, Structural, Debug)]
pub enum AlienType {
    Red,
    Green,
    Yellow,
}

/// The formation moves as one: a shared direction, speed, a pending step
/// down, and how many aliens may fire in one volley.
#[derive(Clone, Copy, PartialEq, Eq, Structural, Debug)]
pub struct AlienFormationState {
    pub movement_direction: i64,
    pub movement_speed: MovementSpeed,
    pub move_down: bool,
    pub available_to_shoot: u32,
}

impl Default for AlienFormationState {
    /// The formation starts moving left at 30 pixels per second, with two
    /// aliens firing per volley.
    fn default() -> (s: AlienFormationState)
        ensures
            s.movement_direction == -1,
            s.movement_speed.value == 30_000,
            !s.move_down,
            s.available_to_shoot == 2,
    {
        AlienFormationState {
            movement_direction: -1,
            movement_speed: MovementSpeed { value: 30_000 },
            move_down: false,
            available_to_shoot: 2,
        }
    }
}

/// The formation state the movement systems accept: the direction is a
/// unit step and the speed lies within the world bound.
pub open spec fn spec_formation_state_valid(s: AlienFormationState) -> bool {
    &&& s.movement_direction == 1 || s.movement_direction == -1
    &&& 0 <= s.movement_speed.value <= COORD_LIMIT
}

/// A projectile fired by an enemy.
#[derive(Clone, Copy, PartialEq, Eq, Structural, Debug)]
pub struct FromEnemy;

/// An enemy unit.
#[derive(Clone, Copy, PartialEq, Eq, Structural, Debug)]
pub struct Enemy;

/// Marker for per-enemy state the engine tracks.
#[derive(Clone, Copy, PartialEq, Eq, Structural, Debug)]
pub struct EnemyState;

/// The collision layers of an alien: it is an enemy, and it meets the
/// player, friendly projectiles and obstacles.
pub open spec fn spec_alien_layers() -> CollisionLayers {
    CollisionLayers {
        groups: LayerSet {
            enemy: true,
            player: false,
            friendly: false,
            friendly_projectile: false,
            hostile_projectile: false,
            projectile: false,
            obstacle: false,
        },
        masks: LayerSet {
            enemy: false,
            player: true,
            friendly: false,
            friendly_projectile: true,
            hostile_projectile: false,
            projectile: false,
            obstacle: true,
        },
    }
}

/// Everything the host engine needs to spawn one alien.
#[derive(Clone, Copy, PartialEq, Eq, Structural, Debug)]
pub struct AlienBundle {
    pub pos: Vec2i,
    pub alien_type: AlienType,
    pub ship: BasicShipBundle,
    pub phys: EntityPhysicsBundle,
    pub asset_info: RenderedAssetInfo,
}

/// The sprite extent an alien of the given type is rendered at.
pub open spec fn spec_alien_sprite_size(t: AlienType, infos: SpriteInfos) -> Vec2i {
    match t {
        AlienType::Red => infos.red_enemy.size,
        AlienType::Green => infos.green_enemy.size,
        AlienType::Yellow => infos.yellow_enemy.size,
    }
}

/// An alien of the given type at the given spot: the stock ship loadout,
/// a position-driven body with a box collider of half the sprite extent,
/// and the alien collision layers.
pub open spec fn spec_alien_bundle(x: i64, y: i64, t: AlienType, infos: SpriteInfos) -> AlienBundle {
    let size = spec_alien_sprite_size(t, infos);
    AlienBundle {
        pos: Vec2i { x, y },
        alien_type: t,
        ship: crate::entities::spec_basic_ship_bundle(),
        phys: EntityPhysicsBundle {
            rigid_body: RigidBody::KinematicPositionBased,
            shape: CollisionShape::Cuboid {
                half_extends: Vec2i { x: (size.x / 2) as i64, y: (size.y / 2) as i64 },
            },
            layers: spec_alien_layers(),
        },
        asset_info: RenderedAssetInfo { size },
    }
}

impl AlienBundle {
    pub fn new(x: i64, y: i64, alien_type: AlienType, sprite_infos: &SpriteInfos) -> (b:
        AlienBundle)
        requires
            spec_sprite_infos_valid(*sprite_infos),
        ensures
            b == spec_alien_bundle(x, y, alien_type, *sprite_infos),
    {
        let size = match alien_type {
            AlienType::Red => sprite_infos.red_enemy.size,
            AlienType::Green => sprite_infos.green_enemy.size,
            AlienType::Yellow => sprite_infos.yellow_enemy.size,
        };
        let layers = CollisionLayers::none().with_group(WorldPhysicsLayer::Enemy).with_mask(
            WorldPhysicsLayer::Player,
        ).with_mask(WorldPhysicsLayer::FriendlyProjectile).with_mask(WorldPhysicsLayer::Obstacle);
        proof {
            assert(layers == spec_alien_layers());
        }
        AlienBundle {
            pos: Vec2i { x, y },
            alien_type,
            ship: BasicShipBundle::default(),
            phys: EntityPhysicsBundle {
                rigid_body: RigidBody::KinematicPositionBased,
                shape: CollisionShape::Cuboid {
                    half_extends: Vec2i { x: size.x / 2, y: size.y / 2 },
                },
                layers,
            },
            asset_info: RenderedAssetInfo { size },
        }
    }
}

/// How many aliens stand in a row, and how many rows the formation has.
pub const FORMATION_COLS: usize = 8;

pub const FORMATION_ROWS: usize = 6;

/// The alien at slot `k` of the formation, row by row from the bottom:
/// columns 60 pixels apart starting at -210, rows 48 pixels apart starting
/// at -50. The bottom three rows are red, the next two green, the top row
/// yellow.
pub open spec fn spec_formation_alien(infos: SpriteInfos, k: int) -> AlienBundle {
    let row_idx = k / 8;
    let col_idx = k % 8;
    let row = 5 - row_idx;
    let t = if row == 0 {
        AlienType::Yellow
    } else if 1 <= row <= 2 {
        AlienType::Green
    } else {
        AlienType::Red
    };
    spec_alien_bundle(
        (col_idx * 60_000 - 210_000) as i64,
        (row_idx * 48_000 - 50_000) as i64,
        t,
        infos,
    )
}

/// Lays the whole formation out: 48 aliens, 6 rows of 8.
pub fn setup_enemies(sprite_infos: &SpriteInfos) -> (spawns: Vec<AlienBundle>)
    requires
        spec_sprite_infos_valid(*sprite_infos),
    ensures
        spawns@.len() == 48,
        forall|k: int| 0 <= k < 48 ==> spawns@[k] == spec_formation_alien(*sprite_infos, k),
{
    let mut spawns: Vec<AlienBundle> = Vec::new();
    let mut row_idx: usize = 0;
    while row_idx < FORMATION_ROWS
        invariant
            row_idx <= 6,
            spec_sprite_infos_valid(*sprite_infos),
            spawns@.len() == 8 * row_idx,
            forall|k: int|
                0 <= k < spawns@.len() ==> spawns@[k] == spec_formation_alien(*sprite_infos, k),
        decreases 6 - row_idx,
    {
        let mut col_idx: usize = 0;
        while col_idx < FORMATION_COLS
            invariant
                row_idx < 6,
                col_idx <= 8,
                spec_sprite_infos_valid(*sprite_infos),
                spawns@.len() == 8 * row_idx + col_idx,
                forall|k: int|
                    0 <= k < spawns@.len() ==> spawns@[k] == spec_formation_alien(
                        *sprite_infos,
                        k,
                    ),
            decreases 8 - col_idx,
        {
            let row: usize = 5 - row_idx;
            let x: i64 = col_idx as i64 * 60_000 - 210_000;
            let y: i64 = row_idx as i64 * 48_000 - 50_000;
            let alien_type = if row == 0 {
                AlienType::Yellow
            } else if 1 <= row && row <= 2 {
                AlienType::Green
            } else {
                AlienType::Red
            };
            let bundle = AlienBundle::new(x, y, alien_type, sprite_infos);
            proof {
                let k = 8 * (row_idx as int) + (col_idx as int);
                assert(k / 8 == row_idx as int && k % 8 == col_idx as int) by (nonlinear_arith)
                    requires
                        0 <= (row_idx as int),
                        0 <= (col_idx as int) < 8,
                        k == 8 * (row_idx as int) + (col_idx as int),
                ;
                assert(bundle == spec_formation_alien(*sprite_infos, k));
            }
            spawns.push(bundle);
            col_idx = col_idx + 1;
        }
        row_idx = row_idx + 1;
    }
    spawns
}

/// An alien as the volley system sees it: where it is and what it fires.
#[derive(Clone, Copy, PartialEq, Eq, Structural, Debug)]
pub struct AlienShooter {
    pub pos: Vec2i,
    pub weapon: WeaponState,
}

/// A weapon the spawn systems accept: its projectile speed is
/// non-negative and within the world bound.
pub open spec fn spec_weapon_speed_valid(w: WeaponState) -> bool {
    0 <= w.projectile_speed <= COORD_LIMIT
}

/// The collision layers of an alien shot: a hostile projectile that meets
/// obstacles and friendly units.
pub open spec fn spec_hostile_projectile_layers() -> CollisionLayers {
    CollisionLayers {
        groups: LayerSet {
            enemy: false,
            player: false,
            friendly: false,
            friendly_projectile: false,
            hostile_projectile: true,
            projectile: true,
            obstacle: false,
        },
        masks: LayerSet {
            enemy: false,
            player: false,
            friendly: true,
            friendly_projectile: false,
            hostile_projectile: false,
            projectile: false,
            obstacle: true,
        },
    }
}

/// The shot an alien fires: the alien-laser sprite scaled down, dropped
/// at the alien's spot, flying straight down at the weapon's projectile
/// speed, with a capsule collider and the hostile-projectile layers.
pub open spec fn spec_alien_shot(
    pos: Vec2i,
    weapon: WeaponState,
    infos: SpriteInfos,
    scaling: AssetScaling,
) -> ProjectileSpawn {
    let size = spec_scaled_size(infos.alien_laser.size, scaling.enemy_projectile);
    ProjectileSpawn {
        pos,
        size,
        velocity: Vec2i { x: 0, y: (-weapon.projectile_speed) as i64 },
        layers: spec_hostile_projectile_layers(),
        rigid_body: RigidBody::KinematicVelocityBased,
        shape: CollisionShape::Capsule {
            half_segment: (size.y / 2) as i64,
            radius: (size.x / 2) as i64,
        },
        projectile: Projectile { damage: 1 },
        from_player: false,
    }
}

/// One alien's part in a volley: a shot exactly when its weapon is ready.
pub fn alien_fire(
    pos: Vec2i,
    weapon: &WeaponState,
    sprite_infos: &SpriteInfos,
    asset_scaling: &AssetScaling,
) -> (r: Option<ProjectileSpawn>)
    requires
        spec_sprite_infos_valid(*sprite_infos),
        spec_scaling_valid(*asset_scaling),
        spec_weapon_speed_valid(*weapon),
    ensures
        r is Some <==> weapon.ready,
        weapon.ready ==> r == Some(spec_alien_shot(pos, *weapon, *sprite_infos, *asset_scaling)),
{
    if !weapon.ready {
        return None;
    }
    let size = scaled_size(sprite_infos.alien_laser.size, asset_scaling.enemy_projectile);
    let layers = CollisionLayers::none().with_group(WorldPhysicsLayer::Projectile).with_group(
        WorldPhysicsLayer::HostileProjectile,
    ).with_mask(WorldPhysicsLayer::Obstacle).with_mask(WorldPhysicsLayer::Friendly);
    proof {
        assert(layers == spec_hostile_projectile_layers());
    }
    Some(
        ProjectileSpawn {
            pos,
            size,
            velocity: Vec2i { x: 0, y: -weapon.projectile_speed },
            layers,
            rigid_body: RigidBody::KinematicVelocityBased,
            shape: CollisionShape::Capsule { half_segment: size.y / 2, radius: size.x / 2 },
            projectile: Projectile { damage: 1 },
            from_player: false,
        },
    )
}

/// Relies on rand's `SliceRandom::choose_multiple`, which samples
/// `min(amount, len)` distinct positions of a slice without replacement.
#[verifier::external_body]
fn sample_indices(len: usize, amount: usize) -> (r: Vec<usize>)
    ensures
        r@.len() == if amount < len {
            amount as int
        } else {
            len as int
        },
        forall|k: int| 0 <= k < r@.len() ==> r@[k] < len,
        r@.no_duplicates(),
{
    let positions: Vec<usize> = (0..len).collect();
    positions.choose_multiple(&mut rand::thread_rng(), amount).copied().collect()
}

/// The shot is exactly what some ready alien of the roster fires.
pub open spec fn spec_shot_from_some_alien(
    shot: ProjectileSpawn,
    aliens: Seq<AlienShooter>,
    infos: SpriteInfos,
    scaling: AssetScaling,
) -> bool {
    exists|k: int|
        0 <= k < aliens.len() && (#[trigger] aliens[k]).weapon.ready && shot == spec_alien_shot(
            aliens[k].pos,
            aliens[k].weapon,
            infos,
            scaling,
        )
}

/// A volley: `min(available_to_shoot, roster size)` distinct aliens are
/// picked at random, and each picked alien whose weapon is ready fires its
/// shot. Which aliens are picked is up to chance; every shot that comes
/// back is the exact shot of some ready alien, and when the whole roster
/// is ready the volley is exactly as large as the pick.
pub fn alien_random_shoot(
    aliens: &Vec<AlienShooter>,
    alien_state: &AlienFormationState,
    sprite_infos: &SpriteInfos,
    asset_scaling: &AssetScaling,
) -> (shots: Vec<ProjectileSpawn>)
    requires
        spec_sprite_infos_valid(*sprite_infos),
        spec_scaling_valid(*asset_scaling),
        forall|k: int|
            0 <= k < aliens@.len() ==> spec_weapon_speed_valid(#[trigger] aliens@[k].weapon),
    ensures
        shots@.len() <= alien_state.available_to_shoot,
        shots@.len() <= aliens@.len(),
        forall|j: int|
            0 <= j < shots@.len() ==> spec_shot_from_some_alien(
                #[trigger] shots@[j],
                aliens@,
                *sprite_infos,
                *asset_scaling,
            ),
        (forall|k: int| 0 <= k < aliens@.len() ==> (#[trigger] aliens@[k]).weapon.ready)
            ==> shots@.len() == if (alien_state.available_to_shoot as int) <= aliens@.len() {
            alien_state.available_to_shoot as int
        } else {
            aliens@.len() as int
        },
{
    let picks = sample_indices(aliens.len(), alien_state.available_to_shoot as usize);
    let mut shots: Vec<ProjectileSpawn> = Vec::new();
    let mut i: usize = 0;
    while i < picks.len()
        invariant
            picks@.len() <= alien_state.available_to_shoot,
            picks@.len() <= aliens@.len(),
            forall|k: int| 0 <= k < picks@.len() ==> picks@[k] < aliens@.len(),
            picks@.len() == if (alien_state.available_to_shoot as int) <= aliens@.len() {
                alien_state.available_to_shoot as int
            } else {
                aliens@.len() as int
            },
            i <= picks@.len(),
            shots@.len() <= i,
            (forall|k: int| 0 <= k < aliens@.len() ==> (#[trigger] aliens@[k]).weapon.ready)
                ==> shots@.len() == i as int,
            spec_sprite_infos_valid(*sprite_infos),
            spec_scaling_valid(*asset_scaling),
            forall|k: int|
                0 <= k < aliens@.len() ==> spec_weapon_speed_valid(#[trigger] aliens@[k].weapon),
            forall|j: int|
                0 <= j < shots@.len() ==> spec_shot_from_some_alien(
                    #[trigger] shots@[j],
                    aliens@,
                    *sprite_infos,
                    *asset_scaling,
                ),
        decreases picks@.len() - i,
    {
        let idx = picks[i];
        let alien = aliens[idx];
        let fired = alien_fire(alien.pos, &alien.weapon, sprite_infos, asset_scaling);
        proof {
            if forall|k: int| 0 <= k < aliens@.len() ==> (#[trigger] aliens@[k]).weapon.ready {
                assert(aliens@[idx as int].weapon.ready);
                assert(fired is Some);
            }
        }
        if let Some(shot) = fired {
            proof {
                assert(aliens@[idx as int].weapon.ready);
                assert(spec_shot_from_some_alien(shot, aliens@, *sprite_infos, *asset_scaling));
            }
            shots.push(shot);
        }
        i = i + 1;
    }
    shots
}

/// The sideways step the formation makes each tick: its direction times
/// its per-tick speed.
pub open spec fn spec_formation_dx(s: AlienFormationState) -> int {
    s.movement_direction * (s.movement_speed.value / TICKS_PER_SECOND)
}

/// One tick of the sweep: every alien moves sideways by the formation's
/// step.
pub fn manage_alien_horizontal_movement(
    positions: &mut Vec<Vec2i>,
    alien_state: &AlienFormationState,
)
    requires
        spec_formation_state_valid(*alien_state),
        forall|k: int| 0 <= k < old(positions)@.len() ==> in_world(#[trigger] old(positions)@[k]),
    ensures
        final(positions)@.len() == old(positions)@.len(),
        forall|k: int|
            0 <= k < old(positions)@.len() ==> final(positions)@[k] == (Vec2i {
                x: (old(positions)@[k].x + spec_formation_dx(*alien_state)) as i64,
                y: old(positions)@[k].y,
            }),
{
    let dx: i64 = alien_state.movement_direction * (alien_state.movement_speed.value
        / TICKS_PER_SECOND);
    let n = positions.len();
    let mut i: usize = 0;
    while i < n
        invariant
            n == old(positions)@.len(),
            i <= n,
            positions@.len() == n,
            dx == spec_formation_dx(*alien_state),
            -COORD_LIMIT <= dx <= COORD_LIMIT,
            forall|k: int| i <= k < n ==> positions@[k] == old(positions)@[k],
            forall|k: int| i <= k < n ==> in_world(#[trigger] positions@[k]),
            forall|k: int|
                0 <= k < i ==> positions@[k] == (Vec2i {
                    x: (old(positions)@[k].x + spec_formation_dx(*alien_state)) as i64,
                    y: old(positions)@[k].y,
                }),
        decreases n - i,
    {
        let p = positions[i];
        positions.set(i, Vec2i { x: p.x + dx, y: p.y });
        i = i + 1;
    }
}

/// An alien the descent system sees: its entity and where it stands.
#[derive(Clone, Copy, PartialEq, Eq, Structural, Debug)]
pub struct AlienTransform {
    pub id: u64,
    pub pos: Vec2i,
}

/// A position ten pixels further down.
pub open spec fn spec_descended(p: Vec2i) -> Vec2i {
    Vec2i { x: p.x, y: (p.y - 10_000) as i64 }
}

/// The position has left the visible half-height of the window.
pub open spec fn spec_out_of_view(p: Vec2i, h: i64) -> bool {
    (if p.y < 0 {
        -p.y
    } else {
        p.y as int
    }) > h / 2
}

/// The aliens that leave the window during a descent, in formation order.
pub open spec fn spec_descend_despawns(units: Seq<AlienTransform>, h: i64) -> Seq<u64>
    decreases units.len(),
{
    if units.len() == 0 {
        Seq::empty()
    } else {
        let rest = spec_descend_despawns(units.drop_last(), h);
        if spec_out_of_view(spec_descended(units.last().pos), h) {
            rest.push(units.last().id)
        } else {
            rest
        }
    }
}

/// The step down: when one is pending, every alien drops ten pixels, the
/// aliens that leave the window are despawned, and the pending step is
/// cleared. With no step pending nothing moves.
pub fn manage_alien_vertical_movement(
    units: &mut Vec<AlienTransform>,
    alien_state: &mut AlienFormationState,
    win_size: &WinSize,
) -> (despawns: Vec<u64>)
    requires
        0 <= win_size.h,
        forall|k: int| 0 <= k < old(units)@.len() ==> in_world(#[trigger] old(units)@[k].pos),
    ensures
        *final(alien_state) == (AlienFormationState { move_down: false, ..*old(alien_state) }),
        !old(alien_state).move_down ==> final(units)@ == old(units)@ && despawns@.len() == 0,
        old(alien_state).move_down ==> {
            &&& final(units)@.len() == old(units)@.len()
            &&& forall|k: int|
                0 <= k < old(units)@.len() ==> final(units)@[k] == (AlienTransform {
                    id: old(units)@[k].id,
                    pos: spec_descended(old(units)@[k].pos),
                })
            &&& despawns@ == spec_descend_despawns(old(units)@, win_size.h)
        },
{
    let mut despawns: Vec<u64> = Vec::new();
    if alien_state.move_down {
        let n = units.len();
        let mut i: usize = 0;
        while i < n
            invariant
                n == old(units)@.len(),
                i <= n,
                units@.len() == n,
                0 <= win_size.h,
                forall|k: int| i <= k < n ==> units@[k] == old(units)@[k],
                forall|k: int| i <= k < n ==> in_world(#[trigger] units@[k].pos),
                forall|k: int|
                    0 <= k < i ==> units@[k] == (AlienTransform {
                        id: old(units)@[k].id,
                        pos: spec_descended(old(units)@[k].pos),
                    }),
                despawns@ == spec_descend_despawns(old(units)@.take(i as int), win_size.h),
            decreases n - i,
        {
            let u = units[i];
            let moved = Vec2i { x: u.pos.x, y: u.pos.y - 10_000 };
            units.set(i, AlienTransform { id: u.id, pos: moved });
            let mag = if moved.y < 0 {
                -moved.y
            } else {
                moved.y
            };
            if mag > win_size.h / 2 {
                despawns.push(u.id);
            }
            proof {
                assert(old(units)@.take(i as int + 1).drop_last() =~= old(units)@.take(i as int));
                assert(old(units)@.take(i as int + 1).last() == old(units)@[i as int]);
            }
            i = i + 1;
        }
        proof {
            assert(old(units)@.take(n as int) =~= old(units)@);
        }
        alien_state.move_down = false;
    } else {
        alien_state.move_down = false;
    }
    despawns
}

/// An alien the edge-watch system sees: where it stands and how wide it
/// is drawn.
#[derive(Clone, Copy, PartialEq, Eq, Structural, Debug)]
pub struct AlienSprite {
    pub pos: Vec2i,
    pub size: Vec2i,
}

/// The alien's centre has reached the window edge, less half its own
/// width.
pub open spec fn spec_at_edge(u: AlienSprite, w: i64) -> bool {
    (if u.pos.x < 0 {
        -u.pos.x
    } else {
        u.pos.x as int
    }) >= w / 2 - u.size.x / 2
}

/// The edge watch: the moment any alien reaches the window edge, the
/// whole formation turns around and a step down is scheduled.
pub fn manage_alien_movement_direction(
    units: &Vec<AlienSprite>,
    alien_state: &mut AlienFormationState,
    win_size: &WinSize,
)
    requires
        spec_formation_state_valid(*old(alien_state)),
        forall|k: int| 0 <= k < units@.len() ==> in_world(#[trigger] units@[k].pos),
        forall|k: int| 0 <= k < units@.len() ==> crate::geometry::valid_size(units@[k].size),
        0 <= win_size.w,
    ensures
        (exists|k: int| 0 <= k < units@.len() && spec_at_edge(#[trigger] units@[k], win_size.w))
            ==> *final(alien_state) == (AlienFormationState {
            movement_direction: (-old(alien_state).movement_direction) as i64,
            move_down: true,
            ..*old(alien_state)
        }),
        (forall|k: int| 0 <= k < units@.len() ==> !spec_at_edge(#[trigger] units@[k], win_size.w))
            ==> *final(alien_state) == *old(alien_state),
{
    let n = units.len();
    let mut hit = false;
    let mut i: usize = 0;
    while i < n
        invariant
            n == units@.len(),
            i <= n,
            0 <= win_size.w,
            forall|k: int| 0 <= k < n ==> in_world(#[trigger] units@[k].pos),
            forall|k: int| 0 <= k < n ==> crate::geometry::valid_size(units@[k].size),
            hit == exists|k: int|
                0 <= k < i && spec_at_edge(#[trigger] units@[k], win_size.w),
        decreases n - i,
    {
        let u = units[i];
        let mag = if u.pos.x < 0 {
            -u.pos.x
        } else {
            u.pos.x
        };
        if mag >= win_size.w / 2 - u.size.x / 2 {
            proof {
                assert(spec_at_edge(units@[i as int], win_size.w));
            }
            hit = true;
        }
        i = i + 1;
    }
    if hit {
        alien_state.movement_direction = -alien_state.movement_direction;
        alien_state.move_down = true;
    }
}

} // verus!
