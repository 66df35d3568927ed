//! Weapon state and the cooldown system: a weapon that has fired becomes
//! ready again once its cooldown has elapsed; and the overlap-test hit
//! systems that march projectiles into enemies and obstacle blocks.

use crate::geometry::{aabb_overlap, in_world, rects_overlap, valid_size, Vec2i};
use crate::shared::attributes::{spec_damaged, Health};
use crate::shared::physics::{CollisionLayers, CollisionShape, RigidBody};
use crate::Game;
use std::collections::HashSet;
use vstd::prelude::*;

verus! {

broadcast use vstd::std_specs::hash::group_hash_axioms;

/// A projectile in flight deals this much damage on impact.
#[derive(Clone, Copy, PartialEq, Eq, Structural, Debug)]
pub struct Projectile {
    pub damage: u32,
}

impl Default for Projectile {
    /// An ordinary shot deals one hit point of damage.
    fn default() -> (p: Projectile)
        ensures
            p.damage == 1,
    {
        Projectile { damage: 1 }
    }
}

/// Whether a weapon may fire, and when it last did.
/// Times are milliseconds since startup; speeds are milli-pixels per second.
#[derive(Clone, Copy, PartialEq, Eq, Structural, Debug)]
pub struct WeaponState {
    pub ready: bool,
    pub cooldown: u64,
    pub last_fired: u64,
    pub projectile_speed: i64,
}

/// A weapon as `reset` leaves it: ready, with no shot on record.
pub open spec fn spec_weapon_reset(w: WeaponState) -> WeaponState {
    WeaponState { ready: true, last_fired: 0, ..w }
}

/// A weapon as `fired` leaves it: not ready, the shot time on record.
pub open spec fn spec_weapon_fired(w: WeaponState, time: u64) -> WeaponState {
    WeaponState { ready: false, last_fired: time, ..w }
}

/// The cooldown system makes a weapon ready when it has never fired
/// (no shot on record) or when its cooldown has elapsed.
pub open spec fn spec_weapon_elapsed(w: WeaponState, now: u64) -> bool {
    w.last_fired == 0 || now > w.last_fired + w.cooldown
}

/// The quick weapon: a fifth of a second between shots, projectiles at
/// 700 pixels per second.
pub open spec fn spec_fast_normal_weapon() -> WeaponState {
    WeaponState { ready: true, cooldown: 200, last_fired: 0, projectile_speed: 700_000 }
}

impl WeaponState {
    /// A quick weapon: a fifth of a second between shots,
    /// projectiles at 700 pixels per second.
    pub fn fast_normal_weapon() -> (w: WeaponState)
        ensures
            w == spec_fast_normal_weapon(),
    {
        WeaponState { ready: true, cooldown: 200, last_fired: 0, projectile_speed: 700_000 }
    }

    /// Record a shot at the given time; the weapon is no longer ready.
    pub fn fired(&mut self, time: u64)
        ensures
            *final(self) == spec_weapon_fired(*old(self), time),
    {
        self.ready = false;
        self.last_fired = time;
    }

    /// Make the weapon ready again and clear the shot on record.
    pub fn reset(&mut self)
        ensures
            *final(self) == spec_weapon_reset(*old(self)),
    {
        self.ready = true;
        self.last_fired = 0;
    }
}

/// One step of the cooldown system on a single weapon.
pub open spec fn spec_weapon_managed(w: WeaponState, now: u64) -> WeaponState {
    if spec_weapon_elapsed(w, now) {
        spec_weapon_reset(w)
    } else {
        w
    }
}

/// The cooldown system: reset every weapon whose cooldown has elapsed
/// (or that has no shot on record), leave the rest as they are.
pub fn manage_all_weapons_state(weapons: &mut Vec<WeaponState>, now: u64)
    ensures
        final(weapons)@.len() == old(weapons)@.len(),
        forall|i: int|
            0 <= i < old(weapons)@.len() ==> final(weapons)@[i] == spec_weapon_managed(
                old(weapons)@[i],
                now,
            ),
{
    let n = weapons.len();
    let mut idx: usize = 0;
    while idx < n
        invariant
            n == old(weapons)@.len(),
            idx <= n,
            weapons@.len() == n,
            forall|i: int|
                0 <= i < idx ==> weapons@[i] == spec_weapon_managed(old(weapons)@[i], now),
            forall|i: int| idx <= i < n ==> weapons@[i] == old(weapons)@[i],
        decreases n - idx,
    {
        let w = weapons[idx];
        let elapsed = w.last_fired == 0 || (now > w.cooldown && now - w.cooldown > w.last_fired);
        proof {
            assert(elapsed == spec_weapon_elapsed(w, now));
        }
        if elapsed {
            let mut updated = w;
            updated.reset();
            weapons.set(idx, updated);
        }
        idx = idx + 1;
    }
}

/// Everything the host engine needs to spawn a projectile the gameplay
/// systems decided on: where, how large, how fast, what it may hit, and
/// what it deals. `from_player` tells friendly fire from hostile fire.
#[derive(Clone, Copy, PartialEq, Eq, Structural, Debug)]
pub struct ProjectileSpawn {
    pub pos: Vec2i,
    pub size: Vec2i,
    pub velocity: Vec2i,
    pub layers: CollisionLayers,
    pub rigid_body: RigidBody,
    pub shape: CollisionShape,
    pub projectile: Projectile,
    pub from_player: bool,
}

/// The cooldown is respected: a weapon that fired at a recorded time is
/// left alone by the cooldown system until its cooldown has elapsed, and
/// is made ready again as soon as it has.
pub proof fn lemma_cooldown_respected(w: WeaponState, t: u64, now: u64)
    requires
        t > 0,
    ensures
        ({
            let fired = spec_weapon_fired(w, t);
            &&& now <= t + w.cooldown ==> spec_weapon_managed(fired, now) == fired
                && !spec_weapon_managed(fired, now).ready
            &&& now > t + w.cooldown ==> spec_weapon_managed(fired, now) == spec_weapon_reset(
                fired,
            ) && spec_weapon_managed(fired, now).ready
        }),
{
}

/// A projectile as the hit systems see it: where it is, how large its
/// rendered sprite is, and what it deals on impact.
#[derive(Clone, Copy, PartialEq, Eq, Structural, Debug)]
pub struct ProjectileBody {
    pub id: u64,
    pub damage: u32,
    pub pos: Vec2i,
    pub size: Vec2i,
}

pub open spec fn spec_projectile_body_valid(b: ProjectileBody) -> bool {
    in_world(b.pos) && valid_size(b.size)
}

/// An enemy as the hit systems see it: its health, position and extent.
#[derive(Clone, Copy, PartialEq, Eq, Structural, Debug)]
pub struct EnemyBody {
    pub id: u64,
    pub hp: Health,
    pub pos: Vec2i,
    pub size: Vec2i,
}

pub open spec fn spec_enemy_body_valid(b: EnemyBody) -> bool {
    in_world(b.pos) && valid_size(b.size)
}

/// An obstacle block as the hit systems see it. A block only takes part
/// in hit detection when its sprite carries an explicit size.
#[derive(Clone, Copy, PartialEq, Eq, Structural, Debug)]
pub struct ObstacleBody {
    pub id: u64,
    pub hp: Health,
    pub pos: Vec2i,
    pub size: Option<Vec2i>,
}

pub open spec fn spec_obstacle_body_valid(b: ObstacleBody) -> bool {
    in_world(b.pos) && (b.size matches Some(s) ==> valid_size(s))
}

/// The state the obstacle hit system carries across the scan: the blocks'
/// health, the entities already despawned, and the despawn commands in
/// order.
pub struct ObstacleHitState {
    pub obstacles: Seq<ObstacleBody>,
    pub despawned: Set<u64>,
    pub order: Seq<u64>,
}

pub open spec fn spec_obstacle_hit_init(obstacles: Seq<ObstacleBody>) -> ObstacleHitState {
    ObstacleHitState { obstacles, despawned: Set::empty(), order: Seq::empty() }
}

/// One projectile tested against one block. On overlap the block takes
/// the damage; the projectile, if not already spent in this scan, is
/// despawned; the block, if now dead and not yet despawned, follows.
pub open spec fn spec_obstacle_hit_pair(
    st: ObstacleHitState,
    i: int,
    proj: ProjectileBody,
) -> ObstacleHitState {
    let ob = st.obstacles[i];
    match ob.size {
        None => st,
        Some(ob_size) => {
            if rects_overlap(proj.pos, proj.size, ob.pos, ob_size) {
                let hp2 = spec_damaged(ob.hp, proj.damage);
                let st1 = ObstacleHitState {
                    obstacles: st.obstacles.update(i, ObstacleBody { hp: hp2, ..ob }),
                    despawned: st.despawned,
                    order: st.order,
                };
                let st2 = if !st1.despawned.contains(proj.id) {
                    ObstacleHitState {
                        obstacles: st1.obstacles,
                        despawned: st1.despawned.insert(proj.id),
                        order: st1.order.push(proj.id),
                    }
                } else {
                    st1
                };
                if hp2.current_hp == 0 && !st2.despawned.contains(ob.id) {
                    ObstacleHitState {
                        obstacles: st2.obstacles,
                        despawned: st2.despawned.insert(ob.id),
                        order: st2.order.push(ob.id),
                    }
                } else {
                    st2
                }
            } else {
                st
            }
        },
    }
}

/// One block tested against the projectiles from index `j` on.
pub open spec fn spec_obstacle_hit_inner(
    st: ObstacleHitState,
    i: int,
    projs: Seq<ProjectileBody>,
    j: int,
) -> ObstacleHitState
    decreases projs.len() - j,
{
    if j < 0 || j >= projs.len() {
        st
    } else {
        spec_obstacle_hit_inner(spec_obstacle_hit_pair(st, i, projs[j]), i, projs, j + 1)
    }
}

/// The whole scan: blocks from index `i` up to `n`, each against every
/// projectile.
pub open spec fn spec_obstacle_hit_run(
    st: ObstacleHitState,
    i: int,
    n: int,
    projs: Seq<ProjectileBody>,
) -> ObstacleHitState
    decreases n - i,
{
    if i < 0 || i >= n {
        st
    } else {
        spec_obstacle_hit_run(spec_obstacle_hit_inner(st, i, projs, 0), i + 1, n, projs)
    }
}

/// Every projectile striking every block it overlaps: blocks take damage,
/// spent projectiles and destroyed blocks are despawned once each.
pub fn manage_projectiles_hit_obstacles(
    obstacles: &mut Vec<ObstacleBody>,
    projectiles: &Vec<ProjectileBody>,
) -> (despawns: Vec<u64>)
    requires
        forall|k: int|
            0 <= k < old(obstacles)@.len() ==> spec_obstacle_body_valid(
                #[trigger] old(obstacles)@[k],
            ),
        forall|k: int|
            0 <= k < projectiles@.len() ==> spec_projectile_body_valid(
                #[trigger] projectiles@[k],
            ),
    ensures
        ({
            let end = spec_obstacle_hit_run(
                spec_obstacle_hit_init(old(obstacles)@),
                0,
                old(obstacles)@.len() as int,
                projectiles@,
            );
            final(obstacles)@ == end.obstacles && despawns@ == end.order
        }),
{
    let ghost st0 = spec_obstacle_hit_init(obstacles@);
    let ghost mut st = st0;
    let mut despawned_set: HashSet<u64> = HashSet::new();
    let mut order: Vec<u64> = Vec::new();
    let n = obstacles.len();
    let m = projectiles.len();
    let mut i: usize = 0;
    while i < n
        invariant
            n == obstacles@.len(),
            m == projectiles@.len(),
            i <= n,
            st.obstacles == obstacles@,
            st.despawned == despawned_set@,
            st.order == order@,
            forall|k: int| 0 <= k < n ==> spec_obstacle_body_valid(#[trigger] obstacles@[k]),
            forall|k: int| 0 <= k < m ==> spec_projectile_body_valid(#[trigger] projectiles@[k]),
            spec_obstacle_hit_run(st, i as int, n as int, projectiles@) == spec_obstacle_hit_run(
                st0,
                0,
                n as int,
                projectiles@,
            ),
        decreases n - i,
    {
        let ghost st_enter = st;
        let mut j: usize = 0;
        while j < m
            invariant
                n == obstacles@.len(),
                m == projectiles@.len(),
                i < n,
                j <= m,
                st.obstacles == obstacles@,
                st.despawned == despawned_set@,
                st.order == order@,
                forall|k: int| 0 <= k < n ==> spec_obstacle_body_valid(#[trigger] obstacles@[k]),
                forall|k: int|
                    0 <= k < m ==> spec_projectile_body_valid(#[trigger] projectiles@[k]),
                spec_obstacle_hit_inner(st, i as int, projectiles@, j as int)
                    == spec_obstacle_hit_inner(st_enter, i as int, projectiles@, 0),
                spec_obstacle_hit_run(
                    spec_obstacle_hit_inner(st_enter, i as int, projectiles@, 0),
                    i as int + 1,
                    n as int,
                    projectiles@,
                ) == spec_obstacle_hit_run(st0, 0, n as int, projectiles@),
            decreases m - j,
        {
            let proj = projectiles[j];
            proof {
                st = spec_obstacle_hit_pair(st, i as int, proj);
            }
            let ob = obstacles[i];
            if let Some(ob_size) = ob.size {
                if aabb_overlap(proj.pos, proj.size, ob.pos, ob_size) {
                    let mut hp2 = ob.hp;
                    hp2.take_damage(proj.damage);
                    obstacles.set(i, ObstacleBody { hp: hp2, ..ob });
                    if !despawned_set.contains(&proj.id) {
                        despawned_set.insert(proj.id);
                        order.push(proj.id);
                    }
                    if hp2.current_hp == 0 && !despawned_set.contains(&ob.id) {
                        despawned_set.insert(ob.id);
                        order.push(ob.id);
                    }
                }
            }
            j = j + 1;
        }
        proof {
            assert(spec_obstacle_hit_inner(st, i as int, projectiles@, m as int) == st);
        }
        i = i + 1;
    }
    order
}

proof fn lemma_obstacle_hit_pair_once(st: ObstacleHitState, i: int, proj: ProjectileBody)
    requires
        st.order.no_duplicates(),
        st.despawned == st.order.to_set(),
    ensures
        ({
            let st2 = spec_obstacle_hit_pair(st, i, proj);
            st2.order.no_duplicates() && st2.despawned == st2.order.to_set()
        }),
{
    let ob = st.obstacles[i];
    match ob.size {
        None => {},
        Some(ob_size) => {
            if rects_overlap(proj.pos, proj.size, ob.pos, ob_size) {
                let hp2 = spec_damaged(ob.hp, proj.damage);
                let st1 = ObstacleHitState {
                    obstacles: st.obstacles.update(i, ObstacleBody { hp: hp2, ..ob }),
                    despawned: st.despawned,
                    order: st.order,
                };
                if !st1.despawned.contains(proj.id) {
                    crate::shared::physics::lemma_order_push(st1.order, st1.despawned, proj.id);
                }
                let st2 = if !st1.despawned.contains(proj.id) {
                    ObstacleHitState {
                        obstacles: st1.obstacles,
                        despawned: st1.despawned.insert(proj.id),
                        order: st1.order.push(proj.id),
                    }
                } else {
                    st1
                };
                if hp2.current_hp == 0 && !st2.despawned.contains(ob.id) {
                    crate::shared::physics::lemma_order_push(st2.order, st2.despawned, ob.id);
                }
            }
        },
    }
}

proof fn lemma_obstacle_hit_inner_once(
    st: ObstacleHitState,
    i: int,
    projs: Seq<ProjectileBody>,
    j: int,
)
    requires
        st.order.no_duplicates(),
        st.despawned == st.order.to_set(),
    ensures
        ({
            let end = spec_obstacle_hit_inner(st, i, projs, j);
            end.order.no_duplicates() && end.despawned == end.order.to_set()
        }),
    decreases projs.len() - j,
{
    if !(j < 0 || j >= projs.len()) {
        lemma_obstacle_hit_pair_once(st, i, projs[j]);
        lemma_obstacle_hit_inner_once(spec_obstacle_hit_pair(st, i, projs[j]), i, projs, j + 1);
    }
}

proof fn lemma_obstacle_hit_despawns_once_rec(
    st: ObstacleHitState,
    i: int,
    n: int,
    projs: Seq<ProjectileBody>,
)
    requires
        st.order.no_duplicates(),
        st.despawned == st.order.to_set(),
    ensures
        ({
            let end = spec_obstacle_hit_run(st, i, n, projs);
            end.order.no_duplicates() && end.despawned == end.order.to_set()
        }),
    decreases n - i,
{
    if !(i < 0 || i >= n) {
        lemma_obstacle_hit_inner_once(st, i, projs, 0);
        lemma_obstacle_hit_despawns_once_rec(
            spec_obstacle_hit_inner(st, i, projs, 0),
            i + 1,
            n,
            projs,
        );
    }
}

/// Despawning is idempotent in the overlap scan too: the despawn commands
/// it issues never name an entity twice, and the set of despawned entities
/// is exactly what the commands name.
pub proof fn lemma_obstacle_hit_despawns_once(
    obstacles: Seq<ObstacleBody>,
    projs: Seq<ProjectileBody>,
)
    ensures
        ({
            let end = spec_obstacle_hit_run(
                spec_obstacle_hit_init(obstacles),
                0,
                obstacles.len() as int,
                projs,
            );
            &&& end.order.no_duplicates()
            &&& end.despawned == end.order.to_set()
        }),
{
    assert(Seq::<u64>::empty().to_set() =~= Set::<u64>::empty());
    lemma_obstacle_hit_despawns_once_rec(
        spec_obstacle_hit_init(obstacles),
        0,
        obstacles.len() as int,
        projs,
    );
}

/// The state the player-projectile hit system carries across the scan:
/// the enemies' health, the entities already despawned this scan, how
/// many despawn commands named an enemy, and the despawn commands in
/// order.
pub struct PlayerHitState {
    pub enemies: Seq<EnemyBody>,
    pub despawned: Set<u64>,
    pub kills: int,
    pub order: Seq<u64>,
}

pub open spec fn spec_player_hit_init(enemies: Seq<EnemyBody>) -> PlayerHitState {
    PlayerHitState { enemies, despawned: Set::empty(), kills: 0, order: Seq::empty() }
}

/// One player projectile tested against one enemy. On overlap, a
/// projectile not yet spent in this scan deals its damage and is
/// despawned; an enemy that the blow leaves at zero — alive before it,
/// not yet despawned — is despawned in turn and counted off the enemy
/// tally. A spent projectile deals no further damage, and nothing is
/// ever despawned twice.
pub open spec fn spec_player_hit_pair(
    proj: ProjectileBody,
    st: PlayerHitState,
    j: int,
) -> PlayerHitState {
    let ene = st.enemies[j];
    if rects_overlap(proj.pos, proj.size, ene.pos, ene.size) {
        let st1 = if !st.despawned.contains(proj.id) {
            PlayerHitState {
                enemies: st.enemies.update(
                    j,
                    EnemyBody { hp: spec_damaged(ene.hp, proj.damage), ..ene },
                ),
                despawned: st.despawned.insert(proj.id),
                kills: st.kills,
                order: st.order.push(proj.id),
            }
        } else {
            st
        };
        if ene.hp.current_hp > 0 && st1.enemies[j].hp.current_hp == 0 && !st1.despawned.contains(
            ene.id,
        ) {
            PlayerHitState {
                enemies: st1.enemies,
                despawned: st1.despawned.insert(ene.id),
                kills: st1.kills + 1,
                order: st1.order.push(ene.id),
            }
        } else {
            st1
        }
    } else {
        st
    }
}

/// One projectile tested against the enemies from index `j` up to `m`.
pub open spec fn spec_player_hit_inner(
    proj: ProjectileBody,
    st: PlayerHitState,
    j: int,
    m: int,
) -> PlayerHitState
    decreases m - j,
{
    if j < 0 || j >= m {
        st
    } else {
        spec_player_hit_inner(proj, spec_player_hit_pair(proj, st, j), j + 1, m)
    }
}

/// The whole scan: projectiles from index `i` up to `n`, each against
/// every enemy.
pub open spec fn spec_player_hit_run(
    projs: Seq<ProjectileBody>,
    st: PlayerHitState,
    i: int,
    n: int,
    m: int,
) -> PlayerHitState
    decreases n - i,
{
    if i < 0 || i >= n {
        st
    } else {
        spec_player_hit_run(projs, spec_player_hit_inner(projs[i], st, 0, m), i + 1, n, m)
    }
}

proof fn lemma_player_hit_pair_once(proj: ProjectileBody, st: PlayerHitState, j: int)
    requires
        st.order.no_duplicates(),
        st.despawned == st.order.to_set(),
    ensures
        ({
            let st2 = spec_player_hit_pair(proj, st, j);
            st2.order.no_duplicates() && st2.despawned == st2.order.to_set()
        }),
{
    let ene = st.enemies[j];
    if rects_overlap(proj.pos, proj.size, ene.pos, ene.size) {
        if !st.despawned.contains(proj.id) {
            crate::shared::physics::lemma_order_push(st.order, st.despawned, proj.id);
        }
        let st1 = if !st.despawned.contains(proj.id) {
            PlayerHitState {
                enemies: st.enemies.update(
                    j,
                    EnemyBody { hp: spec_damaged(ene.hp, proj.damage), ..ene },
                ),
                despawned: st.despawned.insert(proj.id),
                kills: st.kills,
                order: st.order.push(proj.id),
            }
        } else {
            st
        };
        if ene.hp.current_hp > 0 && st1.enemies[j].hp.current_hp == 0 && !st1.despawned.contains(
            ene.id,
        ) {
            crate::shared::physics::lemma_order_push(st1.order, st1.despawned, ene.id);
        }
    }
}

proof fn lemma_player_hit_inner_once(proj: ProjectileBody, st: PlayerHitState, j: int, m: int)
    requires
        st.order.no_duplicates(),
        st.despawned == st.order.to_set(),
    ensures
        ({
            let end = spec_player_hit_inner(proj, st, j, m);
            end.order.no_duplicates() && end.despawned == end.order.to_set()
        }),
    decreases m - j,
{
    if !(j < 0 || j >= m) {
        lemma_player_hit_pair_once(proj, st, j);
        lemma_player_hit_inner_once(proj, spec_player_hit_pair(proj, st, j), j + 1, m);
    }
}

proof fn lemma_player_hit_despawns_once_rec(
    projs: Seq<ProjectileBody>,
    st: PlayerHitState,
    i: int,
    n: int,
    m: int,
)
    requires
        st.order.no_duplicates(),
        st.despawned == st.order.to_set(),
    ensures
        ({
            let end = spec_player_hit_run(projs, st, i, n, m);
            end.order.no_duplicates() && end.despawned == end.order.to_set()
        }),
    decreases n - i,
{
    if !(i < 0 || i >= n) {
        lemma_player_hit_inner_once(projs[i], st, 0, m);
        lemma_player_hit_despawns_once_rec(
            projs,
            spec_player_hit_inner(projs[i], st, 0, m),
            i + 1,
            n,
            m,
        );
    }
}

/// Entities are removed exactly once in this scan as well: the despawn
/// commands never name an entity twice, and the set of despawned entities
/// is exactly what the commands name.
pub proof fn lemma_player_hit_despawns_once(
    projs: Seq<ProjectileBody>,
    enemies: Seq<EnemyBody>,
)
    ensures
        ({
            let end = spec_player_hit_run(
                projs,
                spec_player_hit_init(enemies),
                0,
                projs.len() as int,
                enemies.len() as int,
            );
            &&& end.order.no_duplicates()
            &&& end.despawned == end.order.to_set()
        }),
{
    assert(Seq::<u64>::empty().to_set() =~= Set::<u64>::empty());
    lemma_player_hit_despawns_once_rec(
        projs,
        spec_player_hit_init(enemies),
        0,
        projs.len() as int,
        enemies.len() as int,
    );
}

/// Every player projectile striking an enemy it overlaps: a projectile
/// not yet spent deals its damage and is despawned; an enemy the blow
/// kills is despawned and comes off the running enemy count. No entity is
/// despawned, nor any enemy counted off, twice in one scan.
pub fn manage_player_projectiles_hit(
    projectiles: &Vec<ProjectileBody>,
    enemies: &mut Vec<EnemyBody>,
    game: &mut Game,
) -> (despawns: Vec<u64>)
    requires
        forall|k: int|
            0 <= k < projectiles@.len() ==> spec_projectile_body_valid(
                #[trigger] projectiles@[k],
            ),
        forall|k: int|
            0 <= k < old(enemies)@.len() ==> spec_enemy_body_valid(#[trigger] old(enemies)@[k]),
        old(game).active_enemies - projectiles@.len() * old(enemies)@.len() >= i32::MIN,
    ensures
        ({
            let end = spec_player_hit_run(
                projectiles@,
                spec_player_hit_init(old(enemies)@),
                0,
                projectiles@.len() as int,
                old(enemies)@.len() as int,
            );
            &&& final(enemies)@ == end.enemies
            &&& despawns@ == end.order
            &&& final(game).active_enemies == old(game).active_enemies - end.kills
        }),
{
    let ghost st0 = spec_player_hit_init(enemies@);
    let ghost mut st = st0;
    let mut despawned_set: HashSet<u64> = HashSet::new();
    let mut order: Vec<u64> = Vec::new();
    let n = projectiles.len();
    let m = enemies.len();
    let mut i: usize = 0;
    while i < n
        invariant
            n == projectiles@.len(),
            m == enemies@.len(),
            i <= n,
            st.enemies == enemies@,
            st.despawned == despawned_set@,
            st.order == order@,
            0 <= st.kills <= (i as int) * (m as int),
            game.active_enemies == old(game).active_enemies - st.kills,
            old(game).active_enemies - (n as int) * (m as int) >= i32::MIN,
            forall|k: int| 0 <= k < m ==> spec_enemy_body_valid(#[trigger] enemies@[k]),
            forall|k: int|
                0 <= k < n ==> spec_projectile_body_valid(#[trigger] projectiles@[k]),
            spec_player_hit_run(projectiles@, st, i as int, n as int, m as int)
                == spec_player_hit_run(projectiles@, st0, 0, n as int, m as int),
        decreases n - i,
    {
        let proj = projectiles[i];
        let ghost st_enter = st;
        let mut j: usize = 0;
        while j < m
            invariant
                n == projectiles@.len(),
                m == enemies@.len(),
                i < n,
                j <= m,
                st.enemies == enemies@,
                st.despawned == despawned_set@,
                st.order == order@,
                0 <= st.kills <= (i as int) * (m as int) + j as int,
                game.active_enemies == old(game).active_enemies - st.kills,
                old(game).active_enemies - (n as int) * (m as int) >= i32::MIN,
                proj == projectiles@[i as int],
                spec_projectile_body_valid(proj),
                forall|k: int| 0 <= k < m ==> spec_enemy_body_valid(#[trigger] enemies@[k]),
                spec_player_hit_inner(proj, st, j as int, m as int) == spec_player_hit_inner(
                    proj,
                    st_enter,
                    0,
                    m as int,
                ),
                spec_player_hit_run(
                    projectiles@,
                    spec_player_hit_inner(proj, st_enter, 0, m as int),
                    i as int + 1,
                    n as int,
                    m as int,
                ) == spec_player_hit_run(projectiles@, st0, 0, n as int, m as int),
            decreases m - j,
        {
            proof {
                assert((i as int) * (m as int) + (j as int) + 1 <= (i as int + 1) * (m as int))
                    by (nonlinear_arith)
                    requires
                        0 <= i as int,
                        0 <= m as int,
                        (j as int) < (m as int),
                ;
                assert((i as int + 1) * (m as int) <= (n as int) * (m as int))
                    by (nonlinear_arith)
                    requires
                        (i as int) + 1 <= (n as int),
                        0 <= m as int,
                ;
                st = spec_player_hit_pair(proj, st, j as int);
            }
            let ene = enemies[j];
            if aabb_overlap(proj.pos, proj.size, ene.pos, ene.size) {
                if !despawned_set.contains(&proj.id) {
                    let mut hp2 = ene.hp;
                    hp2.take_damage(proj.damage);
                    enemies.set(j, EnemyBody { hp: hp2, ..ene });
                    despawned_set.insert(proj.id);
                    order.push(proj.id);
                }
                let hp_now = enemies[j].hp;
                if ene.hp.current_hp > 0 && hp_now.current_hp == 0 && !despawned_set.contains(
                    &ene.id,
                ) {
                    despawned_set.insert(ene.id);
                    order.push(ene.id);
                    game.active_enemies = game.active_enemies - 1;
                }
            }
            j = j + 1;
        }
        proof {
            assert(spec_player_hit_inner(proj, st, m as int, m as int) == st);
            assert((i as int + 1) * (m as int) == (i as int) * (m as int) + m as int)
                by (nonlinear_arith);
        }
        i = i + 1;
    }
    order
}

} // verus!
