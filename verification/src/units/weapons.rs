//! Weapons of the earlier unit roster: the same cooldown discipline, plus
//! the systems that fly the player's projectiles up the screen and land
//! their hits on roaming enemies.

use crate::geometry::{aabb_overlap, in_world, rects_overlap, Vec2i, COORD_LIMIT};
use crate::{spec_scaled_size, spec_sprite_infos_valid, scaled_size};
use crate::{Game, SpriteInfos, WinSize, TICKS_PER_SECOND};
use std::collections::HashSet;
use vstd::prelude::*;

verus! {

broadcast use vstd::std_specs::hash::group_hash_axioms;

/// The stock weapon waits 300 milliseconds between shots.
pub const DEFAULT_WEAPON_COOLDOWN: u64 = 300;

/// Whether a weapon may fire, and when it last did.
/// Times are milliseconds since startup; speeds are milli-pixels per second.
#[derive(Clone, Copy, PartialEq, Eq, Structural, Debug)]
pub struct WeaponState {
    pub ready: bool,
    pub cooldown: u64,
    pub last_fired: u64,
    pub projectile_speed: i64,
}

/// A weapon as `reset` leaves it: ready, with no shot on record.
pub open spec fn spec_weapon_reset(w: WeaponState) -> WeaponState {
    WeaponState { ready: true, last_fired: 0, ..w }
}

/// A weapon as `fired` leaves it: not ready, the shot time on record.
pub open spec fn spec_weapon_fired(w: WeaponState, time: u64) -> WeaponState {
    WeaponState { ready: false, last_fired: time, ..w }
}

/// The cooldown system makes a weapon ready when it has never fired
/// (no shot on record) or when its cooldown has elapsed.
pub open spec fn spec_weapon_elapsed(w: WeaponState, now: u64) -> bool {
    w.last_fired == 0 || now > w.last_fired + w.cooldown
}

/// One step of the cooldown system on a single weapon.
pub open spec fn spec_weapon_managed(w: WeaponState, now: u64) -> WeaponState {
    if spec_weapon_elapsed(w, now) {
        spec_weapon_reset(w)
    } else {
        w
    }
}

/// The stock weapon: 300 milliseconds between shots, projectiles at 600
/// pixels per second.
pub open spec fn spec_default_weapon() -> WeaponState {
    WeaponState {
        ready: true,
        cooldown: DEFAULT_WEAPON_COOLDOWN,
        last_fired: 0,
        projectile_speed: 600_000,
    }
}

/// The quick weapon: a fifth of a second between shots, projectiles at
/// 700 pixels per second.
pub open spec fn spec_fast_normal_weapon() -> WeaponState {
    WeaponState { ready: true, cooldown: 200, last_fired: 0, projectile_speed: 700_000 }
}

impl Default for WeaponState {
    fn default() -> (w: WeaponState)
        ensures
            w == spec_default_weapon(),
    {
        WeaponState {
            ready: true,
            cooldown: DEFAULT_WEAPON_COOLDOWN,
            last_fired: 0,
            projectile_speed: 600_000,
        }
    }
}

impl WeaponState {
    pub fn fast_normal_weapon() -> (w: WeaponState)
        ensures
            w == spec_fast_normal_weapon(),
    {
        WeaponState { ready: true, cooldown: 200, last_fired: 0, projectile_speed: 700_000 }
    }

    /// Record a shot at the given time; the weapon is no longer ready.
    pub fn fired(&mut self, time: u64)
        ensures
            *final(self) == spec_weapon_fired(*old(self), time),
    {
        self.ready = false;
        self.last_fired = time;
    }

    /// Make the weapon ready again and clear the shot on record.
    pub fn reset(&mut self)
        ensures
            *final(self) == spec_weapon_reset(*old(self)),
    {
        self.ready = true;
        self.last_fired = 0;
    }
}

/// A projectile that carries its own velocity, in milli-pixels per second.
#[derive(Clone, Copy, PartialEq, Eq, Structural, Debug)]
pub struct Projectile {
    pub velocity: Vec2i,
}

/// The cooldown system: reset every weapon whose cooldown has elapsed
/// (or that has no shot on record), leave the rest as they are.
pub fn manage_all_weapons_state(weapons: &mut Vec<WeaponState>, now: u64)
    ensures
        final(weapons)@.len() == old(weapons)@.len(),
        forall|i: int|
            0 <= i < old(weapons)@.len() ==> final(weapons)@[i] == spec_weapon_managed(
                old(weapons)@[i],
                now,
            ),
{
    let n = weapons.len();
    let mut idx: usize = 0;
    while idx < n
        invariant
            n == old(weapons)@.len(),
            idx <= n,
            weapons@.len() == n,
            forall|i: int|
                0 <= i < idx ==> weapons@[i] == spec_weapon_managed(old(weapons)@[i], now),
            forall|i: int| idx <= i < n ==> weapons@[i] == old(weapons)@[i],
        decreases n - idx,
    {
        let w = weapons[idx];
        let elapsed = w.last_fired == 0 || (now > w.cooldown && now - w.cooldown > w.last_fired);
        proof {
            assert(elapsed == spec_weapon_elapsed(w, now));
        }
        if elapsed {
            let mut updated = w;
            updated.reset();
            weapons.set(idx, updated);
        }
        idx = idx + 1;
    }
}

/// A projectile in flight: its entity, its velocity, and where it is.
#[derive(Clone, Copy, PartialEq, Eq, Structural, Debug)]
pub struct MovingProjectile {
    pub id: u64,
    pub velocity: Vec2i,
    pub pos: Vec2i,
}

pub open spec fn spec_moving_projectile_valid(p: MovingProjectile) -> bool {
    &&& in_world(p.pos)
    &&& -COORD_LIMIT <= p.velocity.x <= COORD_LIMIT
    &&& -COORD_LIMIT <= p.velocity.y <= COORD_LIMIT
}

/// One tick's worth of a velocity: a sixtieth, rounded toward zero.
pub open spec fn spec_per_tick(v: i64) -> int {
    if v >= 0 {
        v / TICKS_PER_SECOND
    } else {
        -((-(v as int)) / (TICKS_PER_SECOND as int))
    }
}

/// A projectile one tick further along its velocity.
pub open spec fn spec_projectile_moved(p: MovingProjectile) -> MovingProjectile {
    MovingProjectile {
        id: p.id,
        velocity: p.velocity,
        pos: Vec2i {
            x: (p.pos.x + spec_per_tick(p.velocity.x)) as i64,
            y: (p.pos.y + spec_per_tick(p.velocity.y)) as i64,
        },
    }
}

/// The projectiles that have flown off the top, in flight order: one whose
/// new height exceeds the window height is despawned.
pub open spec fn spec_flight_despawns(projs: Seq<MovingProjectile>, h: i64) -> Seq<u64>
    decreases projs.len(),
{
    if projs.len() == 0 {
        Seq::empty()
    } else {
        let rest = spec_flight_despawns(projs.drop_last(), h);
        if spec_projectile_moved(projs.last()).pos.y > h {
            rest.push(projs.last().id)
        } else {
            rest
        }
    }
}

/// One tick of projectile flight: every projectile advances a sixtieth of
/// its velocity, and those beyond the window height are despawned.
pub fn move_player_projectiles(projs: &mut Vec<MovingProjectile>, win_size: &WinSize) -> (despawns:
    Vec<u64>)
    requires
        forall|k: int|
            0 <= k < old(projs)@.len() ==> spec_moving_projectile_valid(#[trigger] old(projs)@[k]),
    ensures
        final(projs)@.len() == old(projs)@.len(),
        forall|k: int|
            0 <= k < old(projs)@.len() ==> final(projs)@[k] == spec_projectile_moved(
                old(projs)@[k],
            ),
        despawns@ == spec_flight_despawns(old(projs)@, win_size.h),
{
    let mut despawns: Vec<u64> = Vec::new();
    let n = projs.len();
    let mut i: usize = 0;
    while i < n
        invariant
            n == old(projs)@.len(),
            i <= n,
            projs@.len() == n,
            forall|k: int| i <= k < n ==> projs@[k] == old(projs)@[k],
            forall|k: int|
                i <= k < n ==> spec_moving_projectile_valid(#[trigger] projs@[k]),
            forall|k: int| 0 <= k < i ==> projs@[k] == spec_projectile_moved(old(projs)@[k]),
            despawns@ == spec_flight_despawns(old(projs)@.take(i as int), win_size.h),
        decreases n - i,
    {
        let p = projs[i];
        let dx: i64 = if p.velocity.x >= 0 {
            p.velocity.x / 60
        } else {
            -((-p.velocity.x) / 60)
        };
        let dy: i64 = if p.velocity.y >= 0 {
            p.velocity.y / 60
        } else {
            -((-p.velocity.y) / 60)
        };
        let moved = MovingProjectile {
            id: p.id,
            velocity: p.velocity,
            pos: Vec2i { x: p.pos.x + dx, y: p.pos.y + dy },
        };
        projs.set(i, moved);
        if moved.pos.y > win_size.h {
            despawns.push(p.id);
        }
        proof {
            assert(old(projs)@.take(i as int + 1).drop_last() =~= old(projs)@.take(i as int));
            assert(old(projs)@.take(i as int + 1).last() == old(projs)@[i as int]);
        }
        i = i + 1;
    }
    proof {
        assert(old(projs)@.take(n as int) =~= old(projs)@);
    }
    despawns
}

/// A body the hit scan sees through its transform: its entity, where it
/// is, and the per-axis scale its sprite is drawn at, in thousandths.
#[derive(Clone, Copy, PartialEq, Eq, Structural, Debug)]
pub struct ScaledBody {
    pub id: u64,
    pub pos: Vec2i,
    pub scale: Vec2i,
}

pub open spec fn spec_scaled_body_valid(b: ScaledBody) -> bool {
    &&& in_world(b.pos)
    &&& 0 <= b.scale.x <= 1000
    &&& 0 <= b.scale.y <= 1000
}

/// The state the hit scan carries: the entities already despawned this
/// scan, how many despawn commands named an enemy, and the despawn
/// commands in order.
pub struct UnitsHitState {
    pub despawned: Set<u64>,
    pub kills: int,
    pub order: Seq<u64>,
}

pub open spec fn spec_units_hit_init() -> UnitsHitState {
    UnitsHitState { despawned: Set::empty(), kills: 0, order: Seq::empty() }
}

/// One projectile tested against one enemy: on overlap of their scaled
/// sprites, the enemy — if not yet despawned — is despawned and counted
/// off, and the projectile — if not yet spent — is despawned with it.
/// Nothing is ever despawned, nor any enemy counted off, twice.
pub open spec fn spec_units_hit_pair(
    infos: SpriteInfos,
    st: UnitsHitState,
    proj: ScaledBody,
    ene: ScaledBody,
) -> UnitsHitState {
    if rects_overlap(
        proj.pos,
        spec_scaled_size(infos.player_laser.size, proj.scale),
        ene.pos,
        spec_scaled_size(infos.red_enemy.size, ene.scale),
    ) {
        let st1 = if !st.despawned.contains(ene.id) {
            UnitsHitState {
                despawned: st.despawned.insert(ene.id),
                kills: st.kills + 1,
                order: st.order.push(ene.id),
            }
        } else {
            st
        };
        if !st1.despawned.contains(proj.id) {
            UnitsHitState {
                despawned: st1.despawned.insert(proj.id),
                kills: st1.kills,
                order: st1.order.push(proj.id),
            }
        } else {
            st1
        }
    } else {
        st
    }
}

/// One projectile tested against the enemies from index `j` up to `m`.
pub open spec fn spec_units_hit_inner(
    infos: SpriteInfos,
    proj: ScaledBody,
    enemies: Seq<ScaledBody>,
    st: UnitsHitState,
    j: int,
    m: int,
) -> UnitsHitState
    decreases m - j,
{
    if j < 0 || j >= m {
        st
    } else {
        spec_units_hit_inner(
            infos,
            proj,
            enemies,
            spec_units_hit_pair(infos, st, proj, enemies[j]),
            j + 1,
            m,
        )
    }
}

/// The whole scan: projectiles from index `i` up to `n`, each against
/// every enemy.
pub open spec fn spec_units_hit_run(
    infos: SpriteInfos,
    projs: Seq<ScaledBody>,
    enemies: Seq<ScaledBody>,
    st: UnitsHitState,
    i: int,
    n: int,
    m: int,
) -> UnitsHitState
    decreases n - i,
{
    if i < 0 || i >= n {
        st
    } else {
        spec_units_hit_run(
            infos,
            projs,
            enemies,
            spec_units_hit_inner(infos, projs[i], enemies, st, 0, m),
            i + 1,
            n,
            m,
        )
    }
}

proof fn lemma_units_hit_pair_once(
    infos: SpriteInfos,
    st: UnitsHitState,
    proj: ScaledBody,
    ene: ScaledBody,
)
    requires
        st.order.no_duplicates(),
        st.despawned == st.order.to_set(),
    ensures
        ({
            let st2 = spec_units_hit_pair(infos, st, proj, ene);
            st2.order.no_duplicates() && st2.despawned == st2.order.to_set()
        }),
{
    if rects_overlap(
        proj.pos,
        spec_scaled_size(infos.player_laser.size, proj.scale),
        ene.pos,
        spec_scaled_size(infos.red_enemy.size, ene.scale),
    ) {
        if !st.despawned.contains(ene.id) {
            crate::shared::physics::lemma_order_push(st.order, st.despawned, ene.id);
        }
        let st1 = if !st.despawned.contains(ene.id) {
            UnitsHitState {
                despawned: st.despawned.insert(ene.id),
                kills: st.kills + 1,
                order: st.order.push(ene.id),
            }
        } else {
            st
        };
        if !st1.despawned.contains(proj.id) {
            crate::shared::physics::lemma_order_push(st1.order, st1.despawned, proj.id);
        }
    }
}

proof fn lemma_units_hit_inner_once(
    infos: SpriteInfos,
    proj: ScaledBody,
    enemies: Seq<ScaledBody>,
    st: UnitsHitState,
    j: int,
    m: int,
)
    requires
        st.order.no_duplicates(),
        st.despawned == st.order.to_set(),
    ensures
        ({
            let end = spec_units_hit_inner(infos, proj, enemies, st, j, m);
            end.order.no_duplicates() && end.despawned == end.order.to_set()
        }),
    decreases m - j,
{
    if !(j < 0 || j >= m) {
        lemma_units_hit_pair_once(infos, st, proj, enemies[j]);
        lemma_units_hit_inner_once(
            infos,
            proj,
            enemies,
            spec_units_hit_pair(infos, st, proj, enemies[j]),
            j + 1,
            m,
        );
    }
}

proof fn lemma_units_hit_despawns_once_rec(
    infos: SpriteInfos,
    projs: Seq<ScaledBody>,
    enemies: Seq<ScaledBody>,
    st: UnitsHitState,
    i: int,
    n: int,
    m: int,
)
    requires
        st.order.no_duplicates(),
        st.despawned == st.order.to_set(),
    ensures
        ({
            let end = spec_units_hit_run(infos, projs, enemies, st, i, n, m);
            end.order.no_duplicates() && end.despawned == end.order.to_set()
        }),
    decreases n - i,
{
    if !(i < 0 || i >= n) {
        lemma_units_hit_inner_once(infos, projs[i], enemies, st, 0, m);
        lemma_units_hit_despawns_once_rec(
            infos,
            projs,
            enemies,
            spec_units_hit_inner(infos, projs[i], enemies, st, 0, m),
            i + 1,
            n,
            m,
        );
    }
}

/// Entities are removed exactly once in this scan as well: the despawn
/// commands never name an entity twice, and the set of despawned entities
/// is exactly what the commands name.
pub proof fn lemma_units_hit_despawns_once(
    infos: SpriteInfos,
    projs: Seq<ScaledBody>,
    enemies: Seq<ScaledBody>,
)
    ensures
        ({
            let end = spec_units_hit_run(
                infos,
                projs,
                enemies,
                spec_units_hit_init(),
                0,
                projs.len() as int,
                enemies.len() as int,
            );
            &&& end.order.no_duplicates()
            &&& end.despawned == end.order.to_set()
        }),
{
    assert(Seq::<u64>::empty().to_set() =~= Set::<u64>::empty());
    lemma_units_hit_despawns_once_rec(
        infos,
        projs,
        enemies,
        spec_units_hit_init(),
        0,
        projs.len() as int,
        enemies.len() as int,
    );
}

/// Every player projectile that overlaps a roaming enemy knocks it out:
/// an enemy not yet despawned is despawned and comes off the enemy count,
/// and a projectile not yet spent is despawned with it. No entity is
/// despawned, nor any enemy counted off, twice in one scan.
pub fn player_projectiles_hits_enemies(
    projectiles: &Vec<ScaledBody>,
    enemies: &Vec<ScaledBody>,
    game: &mut Game,
    sprite_infos: &SpriteInfos,
) -> (despawns: Vec<u64>)
    requires
        spec_sprite_infos_valid(*sprite_infos),
        forall|k: int|
            0 <= k < projectiles@.len() ==> spec_scaled_body_valid(#[trigger] projectiles@[k]),
        forall|k: int| 0 <= k < enemies@.len() ==> spec_scaled_body_valid(#[trigger] enemies@[k]),
        old(game).active_enemies - projectiles@.len() * enemies@.len() >= i32::MIN,
    ensures
        ({
            let end = spec_units_hit_run(
                *sprite_infos,
                projectiles@,
                enemies@,
                spec_units_hit_init(),
                0,
                projectiles@.len() as int,
                enemies@.len() as int,
            );
            &&& despawns@ == end.order
            &&& final(game).active_enemies == old(game).active_enemies - end.kills
        }),
{
    let ghost st0 = spec_units_hit_init();
    let ghost mut st = st0;
    let mut despawned_set: HashSet<u64> = HashSet::new();
    let mut order: Vec<u64> = Vec::new();
    let n = projectiles.len();
    let m = enemies.len();
    let mut i: usize = 0;
    while i < n
        invariant
            n == projectiles@.len(),
            m == enemies@.len(),
            i <= n,
            st.despawned == despawned_set@,
            st.order == order@,
            0 <= st.kills <= (i as int) * (m as int),
            game.active_enemies == old(game).active_enemies - st.kills,
            old(game).active_enemies - (n as int) * (m as int) >= i32::MIN,
            spec_sprite_infos_valid(*sprite_infos),
            forall|k: int|
                0 <= k < projectiles@.len() ==> spec_scaled_body_valid(#[trigger] projectiles@[k]),
            forall|k: int|
                0 <= k < enemies@.len() ==> spec_scaled_body_valid(#[trigger] enemies@[k]),
            spec_units_hit_run(*sprite_infos, projectiles@, enemies@, st, i as int, n as int, m as int)
                == spec_units_hit_run(
                *sprite_infos,
                projectiles@,
                enemies@,
                st0,
                0,
                n as int,
                m as int,
            ),
        decreases n - i,
    {
        let proj = projectiles[i];
        let proj_size = scaled_size(sprite_infos.player_laser.size, proj.scale);
        let ghost st_enter = st;
        let mut j: usize = 0;
        while j < m
            invariant
                n == projectiles@.len(),
                m == enemies@.len(),
                i < n,
                j <= m,
                st.despawned == despawned_set@,
                st.order == order@,
                0 <= st.kills <= (i as int) * (m as int) + j as int,
                game.active_enemies == old(game).active_enemies - st.kills,
                old(game).active_enemies - (n as int) * (m as int) >= i32::MIN,
                proj == projectiles@[i as int],
                spec_scaled_body_valid(proj),
                proj_size == spec_scaled_size(sprite_infos.player_laser.size, proj.scale),
                crate::geometry::valid_size(proj_size),
                spec_sprite_infos_valid(*sprite_infos),
                forall|k: int|
                    0 <= k < enemies@.len() ==> spec_scaled_body_valid(#[trigger] enemies@[k]),
                spec_units_hit_inner(*sprite_infos, proj, enemies@, st, j as int, m as int)
                    == spec_units_hit_inner(*sprite_infos, proj, enemies@, st_enter, 0, m as int),
                spec_units_hit_run(
                    *sprite_infos,
                    projectiles@,
                    enemies@,
                    spec_units_hit_inner(*sprite_infos, proj, enemies@, st_enter, 0, m as int),
                    i as int + 1,
                    n as int,
                    m as int,
                ) == spec_units_hit_run(
                    *sprite_infos,
                    projectiles@,
                    enemies@,
                    st0,
                    0,
                    n as int,
                    m as int,
                ),
            decreases m - j,
        {
            proof {
                assert((i as int) * (m as int) + (j as int) + 1 <= ((i as int) + 1) * (m as int))
                    by (nonlinear_arith)
                    requires
                        0 <= (i as int),
                        0 <= (m as int),
                        (j as int) < (m as int),
                ;
                assert(((i as int) + 1) * (m as int) <= (n as int) * (m as int))
                    by (nonlinear_arith)
                    requires
                        (i as int) + 1 <= (n as int),
                        0 <= (m as int),
                ;
                st = spec_units_hit_pair(*sprite_infos, st, proj, enemies@[j as int]);
            }
            let ene = enemies[j];
            let ene_size = scaled_size(sprite_infos.red_enemy.size, ene.scale);
            if aabb_overlap(proj.pos, proj_size, ene.pos, ene_size) {
                if !despawned_set.contains(&ene.id) {
                    despawned_set.insert(ene.id);
                    order.push(ene.id);
                    game.active_enemies = game.active_enemies - 1;
                }
                if !despawned_set.contains(&proj.id) {
                    despawned_set.insert(proj.id);
                    order.push(proj.id);
                }
            }
            j = j + 1;
        }
        proof {
            assert(spec_units_hit_inner(*sprite_infos, proj, enemies@, st, m as int, m as int)
                == st);
            assert(((i as int) + 1) * (m as int) == (i as int) * (m as int) + (m as int))
                by (nonlinear_arith);
        }
        i = i + 1;
    }
    order
}

} // verus!
