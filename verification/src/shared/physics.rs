//! The collision world: layer sets that say what an entity is and what it
//! may touch, the classifiers that read them, and the resolution pipeline
//! that turns collision events into damage and despawns.

use crate::shared::attributes::{spec_damaged, Health};
use crate::shared::weapons::Projectile;
use std::collections::{HashMap, HashSet};
use vstd::prelude::*;

verus! {

broadcast use vstd::std_specs::hash::group_hash_axioms;

/// The kinds of thing the collision world distinguishes.
#[derive(Clone, Copy, PartialEq, Eq, Structural, Debug)]
pub enum WorldPhysicsLayer {
    Enemy,
    Player,
    Friendly,
    FriendlyProjectile,
    HostileProjectile,
    Projectile,
    Obstacle,
}

/// A set of layers, one flag per layer.
#[derive(Clone, Copy, PartialEq, Eq, Structural, Debug)]
pub struct LayerSet {
    pub enemy: bool,
    pub player: bool,
    pub friendly: bool,
    pub friendly_projectile: bool,
    pub hostile_projectile: bool,
    pub projectile: bool,
    pub obstacle: bool,
}

impl LayerSet {
    /// Whether the set holds the given layer.
    pub open spec fn spec_has(self, layer: WorldPhysicsLayer) -> bool {
        match layer {
            WorldPhysicsLayer::Enemy => self.enemy,
            WorldPhysicsLayer::Player => self.player,
            WorldPhysicsLayer::Friendly => self.friendly,
            WorldPhysicsLayer::FriendlyProjectile => self.friendly_projectile,
            WorldPhysicsLayer::HostileProjectile => self.hostile_projectile,
            WorldPhysicsLayer::Projectile => self.projectile,
            WorldPhysicsLayer::Obstacle => self.obstacle,
        }
    }

    /// The same set with the given layer added.
    pub open spec fn spec_with(self, layer: WorldPhysicsLayer) -> LayerSet {
        match layer {
            WorldPhysicsLayer::Enemy => LayerSet { enemy: true, ..self },
            WorldPhysicsLayer::Player => LayerSet { player: true, ..self },
            WorldPhysicsLayer::Friendly => LayerSet { friendly: true, ..self },
            WorldPhysicsLayer::FriendlyProjectile => LayerSet { friendly_projectile: true, ..self },
            WorldPhysicsLayer::HostileProjectile => LayerSet { hostile_projectile: true, ..self },
            WorldPhysicsLayer::Projectile => LayerSet { projectile: true, ..self },
            WorldPhysicsLayer::Obstacle => LayerSet { obstacle: true, ..self },
        }
    }

    /// The set with no layers.
    pub open spec fn spec_empty() -> LayerSet {
        LayerSet {
            enemy: false,
            player: false,
            friendly: false,
            friendly_projectile: false,
            hostile_projectile: false,
            projectile: false,
            obstacle: false,
        }
    }

    pub fn empty() -> (s: LayerSet)
        ensures
            s == LayerSet::spec_empty(),
            forall|l: WorldPhysicsLayer| !s.spec_has(l),
    {
        LayerSet {
            enemy: false,
            player: false,
            friendly: false,
            friendly_projectile: false,
            hostile_projectile: false,
            projectile: false,
            obstacle: false,
        }
    }

    pub fn with(self, layer: WorldPhysicsLayer) -> (s: LayerSet)
        ensures
            s == self.spec_with(layer),
    {
        match layer {
            WorldPhysicsLayer::Enemy => LayerSet { enemy: true, ..self },
            WorldPhysicsLayer::Player => LayerSet { player: true, ..self },
            WorldPhysicsLayer::Friendly => LayerSet { friendly: true, ..self },
            WorldPhysicsLayer::FriendlyProjectile => LayerSet { friendly_projectile: true, ..self },
            WorldPhysicsLayer::HostileProjectile => LayerSet { hostile_projectile: true, ..self },
            WorldPhysicsLayer::Projectile => LayerSet { projectile: true, ..self },
            WorldPhysicsLayer::Obstacle => LayerSet { obstacle: true, ..self },
        }
    }

    pub fn has(&self, layer: WorldPhysicsLayer) -> (r: bool)
        ensures
            r == self.spec_has(layer),
    {
        match layer {
            WorldPhysicsLayer::Enemy => self.enemy,
            WorldPhysicsLayer::Player => self.player,
            WorldPhysicsLayer::Friendly => self.friendly,
            WorldPhysicsLayer::FriendlyProjectile => self.friendly_projectile,
            WorldPhysicsLayer::HostileProjectile => self.hostile_projectile,
            WorldPhysicsLayer::Projectile => self.projectile,
            WorldPhysicsLayer::Obstacle => self.obstacle,
        }
    }
}

/// What an entity is (its groups) and what it may collide with (its masks).
#[derive(Clone, Copy, PartialEq, Eq, Structural, Debug)]
pub struct CollisionLayers {
    pub groups: LayerSet,
    pub masks: LayerSet,
}

impl CollisionLayers {
    /// No groups and no masks: collides with nothing, is nothing.
    pub open spec fn spec_none() -> CollisionLayers {
        CollisionLayers { groups: LayerSet::spec_empty(), masks: LayerSet::spec_empty() }
    }

    pub fn none() -> (c: CollisionLayers)
        ensures
            c == CollisionLayers::spec_none(),
    {
        CollisionLayers { groups: LayerSet::empty(), masks: LayerSet::empty() }
    }

    pub fn with_group(self, layer: WorldPhysicsLayer) -> (c: CollisionLayers)
        ensures
            c.groups == self.groups.spec_with(layer),
            c.masks == self.masks,
    {
        CollisionLayers { groups: self.groups.with(layer), masks: self.masks }
    }

    pub fn with_mask(self, layer: WorldPhysicsLayer) -> (c: CollisionLayers)
        ensures
            c.groups == self.groups,
            c.masks == self.masks.spec_with(layer),
    {
        CollisionLayers { groups: self.groups, masks: self.masks.with(layer) }
    }

    /// Whether the entity belongs to the given layer.
    pub open spec fn spec_contains_group(self, layer: WorldPhysicsLayer) -> bool {
        self.groups.spec_has(layer)
    }

    pub fn contains_group(&self, layer: WorldPhysicsLayer) -> (r: bool)
        ensures
            r == self.spec_contains_group(layer),
    {
        self.groups.has(layer)
    }
}

/// How the physics world moves a body: by writing its position outright,
/// or by integrating a velocity it carries.
#[derive(Clone, Copy, PartialEq, Eq, Structural, Debug)]
pub enum RigidBody {
    KinematicPositionBased,
    KinematicVelocityBased,
}

/// A collider's footprint, in milli-pixels.
#[derive(Clone, Copy, PartialEq, Eq, Structural, Debug)]
pub enum CollisionShape {
    Cuboid { half_extends: crate::geometry::Vec2i },
    Capsule { half_segment: i64, radius: i64 },
}

/// A player: in the player layer and not in the enemy layer.
pub open spec fn spec_is_player(layers: CollisionLayers) -> bool {
    layers.spec_contains_group(WorldPhysicsLayer::Player)
        && !layers.spec_contains_group(WorldPhysicsLayer::Enemy)
}

pub fn is_player(layers: CollisionLayers) -> (r: bool)
    ensures
        r == spec_is_player(layers),
{
    layers.contains_group(WorldPhysicsLayer::Player)
        && !layers.contains_group(WorldPhysicsLayer::Enemy)
}

/// A friendly unit: in the friendly layer and not in the enemy layer.
pub open spec fn spec_is_friendly(layers: CollisionLayers) -> bool {
    layers.spec_contains_group(WorldPhysicsLayer::Friendly)
        && !layers.spec_contains_group(WorldPhysicsLayer::Enemy)
}

pub fn is_friendly(layers: CollisionLayers) -> (r: bool)
    ensures
        r == spec_is_friendly(layers),
{
    layers.contains_group(WorldPhysicsLayer::Friendly)
        && !layers.contains_group(WorldPhysicsLayer::Enemy)
}

/// An enemy: in the enemy layer and not in the player layer.
pub open spec fn spec_is_enemy(layers: CollisionLayers) -> bool {
    !layers.spec_contains_group(WorldPhysicsLayer::Player)
        && layers.spec_contains_group(WorldPhysicsLayer::Enemy)
}

pub fn is_enemy(layers: CollisionLayers) -> (r: bool)
    ensures
        r == spec_is_enemy(layers),
{
    !layers.contains_group(WorldPhysicsLayer::Player)
        && layers.contains_group(WorldPhysicsLayer::Enemy)
}

/// A hostile projectile, and not also a friendly one.
pub open spec fn spec_is_hostile_projectile(layers: CollisionLayers) -> bool {
    !layers.spec_contains_group(WorldPhysicsLayer::FriendlyProjectile)
        && layers.spec_contains_group(WorldPhysicsLayer::HostileProjectile)
}

pub fn is_hostile_projectile(layers: CollisionLayers) -> (r: bool)
    ensures
        r == spec_is_hostile_projectile(layers),
{
    !layers.contains_group(WorldPhysicsLayer::FriendlyProjectile)
        && layers.contains_group(WorldPhysicsLayer::HostileProjectile)
}

/// A friendly projectile, and not also a hostile one.
pub open spec fn spec_is_friendly_projectile(layers: CollisionLayers) -> bool {
    !layers.spec_contains_group(WorldPhysicsLayer::HostileProjectile)
        && layers.spec_contains_group(WorldPhysicsLayer::FriendlyProjectile)
}

pub fn is_friendly_projectile(layers: CollisionLayers) -> (r: bool)
    ensures
        r == spec_is_friendly_projectile(layers),
{
    !layers.contains_group(WorldPhysicsLayer::HostileProjectile)
        && layers.contains_group(WorldPhysicsLayer::FriendlyProjectile)
}

/// Any projectile, friendly or hostile.
pub open spec fn spec_is_projectile(layers: CollisionLayers) -> bool {
    layers.spec_contains_group(WorldPhysicsLayer::Projectile)
}

pub fn is_projectile(layers: CollisionLayers) -> (r: bool)
    ensures
        r == spec_is_projectile(layers),
{
    layers.contains_group(WorldPhysicsLayer::Projectile)
}

/// An obstacle block.
pub open spec fn spec_is_obstacle(layers: CollisionLayers) -> bool {
    layers.spec_contains_group(WorldPhysicsLayer::Obstacle)
}

pub fn is_obstacle(layers: CollisionLayers) -> (r: bool)
    ensures
        r == spec_is_obstacle(layers),
{
    layers.contains_group(WorldPhysicsLayer::Obstacle)
}

/// One collision reported by the broad phase: the two bodies involved,
/// their layer sets, and whether the contact has just started
/// (only started contacts deal damage).
#[derive(Clone, Copy, PartialEq, Eq, Structural, Debug)]
pub struct CollisionEvent {
    pub started: bool,
    pub entity_1: u64,
    pub layers_1: CollisionLayers,
    pub entity_2: u64,
    pub layers_2: CollisionLayers,
}

/// Which projectile-versus-target pairing a resolution pass handles.
#[derive(Clone, Copy, PartialEq, Eq, Structural, Debug)]
pub enum DamageRule {
    /// Any projectile striking an obstacle block.
    ProjectileHitsObstacle,
    /// A friendly projectile striking an enemy.
    FriendlyProjectileHitsEnemy,
    /// A hostile projectile striking a friendly unit.
    HostileProjectileHitsFriendly,
}

/// Reads a started event and orients it as (projectile, target), or nothing
/// if the event does not match the rule. The two layer tests are tried in
/// the order given: first body as target, then first body as projectile.
pub open spec fn spec_damage_pair(rule: DamageRule, e: CollisionEvent) -> Option<(u64, u64)> {
    if !e.started {
        None
    } else {
        match rule {
            DamageRule::ProjectileHitsObstacle => {
                if spec_is_obstacle(e.layers_1) && spec_is_projectile(e.layers_2) {
                    Some((e.entity_2, e.entity_1))
                } else if spec_is_projectile(e.layers_1) && spec_is_obstacle(e.layers_2) {
                    Some((e.entity_1, e.entity_2))
                } else {
                    None
                }
            },
            DamageRule::FriendlyProjectileHitsEnemy => {
                if spec_is_friendly_projectile(e.layers_1) && spec_is_enemy(e.layers_2) {
                    Some((e.entity_1, e.entity_2))
                } else if spec_is_enemy(e.layers_1) && spec_is_friendly_projectile(e.layers_2) {
                    Some((e.entity_2, e.entity_1))
                } else {
                    None
                }
            },
            DamageRule::HostileProjectileHitsFriendly => {
                if spec_is_hostile_projectile(e.layers_1) && spec_is_friendly(e.layers_2) {
                    Some((e.entity_1, e.entity_2))
                } else if spec_is_friendly(e.layers_1) && spec_is_hostile_projectile(e.layers_2) {
                    Some((e.entity_2, e.entity_1))
                } else {
                    None
                }
            },
        }
    }
}

pub fn damage_pair(rule: DamageRule, e: &CollisionEvent) -> (p: Option<(u64, u64)>)
    ensures
        p == spec_damage_pair(rule, *e),
{
    if !e.started {
        return None;
    }
    match rule {
        DamageRule::ProjectileHitsObstacle => {
            if is_obstacle(e.layers_1) && is_projectile(e.layers_2) {
                Some((e.entity_2, e.entity_1))
            } else if is_projectile(e.layers_1) && is_obstacle(e.layers_2) {
                Some((e.entity_1, e.entity_2))
            } else {
                None
            }
        },
        DamageRule::FriendlyProjectileHitsEnemy => {
            if is_friendly_projectile(e.layers_1) && is_enemy(e.layers_2) {
                Some((e.entity_1, e.entity_2))
            } else if is_enemy(e.layers_1) && is_friendly_projectile(e.layers_2) {
                Some((e.entity_2, e.entity_1))
            } else {
                None
            }
        },
        DamageRule::HostileProjectileHitsFriendly => {
            if is_hostile_projectile(e.layers_1) && is_friendly(e.layers_2) {
                Some((e.entity_1, e.entity_2))
            } else if is_friendly(e.layers_1) && is_hostile_projectile(e.layers_2) {
                Some((e.entity_2, e.entity_1))
            } else {
                None
            }
        },
    }
}

/// The state a damage-resolution pass carries from event to event:
/// the targets' health, the entities already despawned this pass,
/// and the despawn commands in the order they were issued.
pub struct DamageState {
    pub targets: Map<u64, Health>,
    pub despawned: Set<u64>,
    pub order: Seq<u64>,
}

/// The state a pass starts from: nothing despawned, no commands issued.
pub open spec fn spec_damage_init(targets: Map<u64, Health>) -> DamageState {
    DamageState { targets, despawned: Set::empty(), order: Seq::empty() }
}

/// Resolution of a single event. If the event pairs a known projectile
/// with a known target: a projectile not yet spent deals its damage and is
/// despawned; then the target, if now dead and not yet despawned, is
/// despawned in turn. A spent projectile deals no further damage, and
/// nothing is ever despawned twice.
pub open spec fn spec_damage_step(
    rule: DamageRule,
    projectiles: Map<u64, Projectile>,
    st: DamageState,
    e: CollisionEvent,
) -> DamageState {
    match spec_damage_pair(rule, e) {
        None => st,
        Some(pair) => {
            let proj_id = pair.0;
            let target_id = pair.1;
            if st.targets.contains_key(target_id) && projectiles.contains_key(proj_id) {
                let damage = projectiles[proj_id].damage;
                let st1 = if !st.despawned.contains(proj_id) {
                    DamageState {
                        targets: st.targets.insert(
                            target_id,
                            spec_damaged(st.targets[target_id], damage),
                        ),
                        despawned: st.despawned.insert(proj_id),
                        order: st.order.push(proj_id),
                    }
                } else {
                    st
                };
                if !st1.despawned.contains(target_id) && st1.targets[target_id].spec_dead() {
                    DamageState {
                        targets: st1.targets,
                        despawned: st1.despawned.insert(target_id),
                        order: st1.order.push(target_id),
                    }
                } else {
                    st1
                }
            } else {
                st
            }
        },
    }
}

/// Resolution of a whole sequence of events, first to last.
pub open spec fn spec_damage_run(
    rule: DamageRule,
    projectiles: Map<u64, Projectile>,
    st: DamageState,
    events: Seq<CollisionEvent>,
) -> DamageState
    decreases events.len(),
{
    if events.len() == 0 {
        st
    } else {
        spec_damage_run(
            rule,
            projectiles,
            spec_damage_step(rule, projectiles, st, events[0]),
            events.drop_first(),
        )
    }
}

proof fn lemma_damage_run_unfold(
    rule: DamageRule,
    projectiles: Map<u64, Projectile>,
    st: DamageState,
    events: Seq<CollisionEvent>,
    i: int,
)
    requires
        0 <= i < events.len(),
    ensures
        spec_damage_run(rule, projectiles, st, events.skip(i)) == spec_damage_run(
            rule,
            projectiles,
            spec_damage_step(rule, projectiles, st, events[i]),
            events.skip(i + 1),
        ),
{
    assert(events.skip(i)[0] == events[i]);
    assert(events.skip(i).drop_first() =~= events.skip(i + 1));
}

/// Runs one damage-resolution pass over the reported events.
/// `targets` maps each target entity to its health; `projectiles` maps each
/// projectile entity to its payload. The map of healths is updated in
/// place, and the despawn commands come back in the order they were issued,
/// exactly as the event-by-event resolution describes.
pub fn resolve_damage_events(
    rule: DamageRule,
    events: &Vec<CollisionEvent>,
    targets: &mut HashMap<u64, Health>,
    projectiles: &HashMap<u64, Projectile>,
) -> (despawns: Vec<u64>)
    ensures
        ({
            let end = spec_damage_run(
                rule,
                projectiles@,
                spec_damage_init(old(targets)@),
                events@,
            );
            final(targets)@ == end.targets && despawns@ == end.order
        }),
{
    let ghost st0 = spec_damage_init(targets@);
    let ghost mut st = st0;
    let mut despawned_set: HashSet<u64> = HashSet::new();
    let mut order: Vec<u64> = Vec::new();
    proof {
        assert(events@.skip(0) =~= events@);
    }
    let n = events.len();
    let mut idx: usize = 0;
    while idx < n
        invariant
            n == events@.len(),
            idx <= n,
            st0 == spec_damage_init(old(targets)@),
            st.targets == targets@,
            st.despawned == despawned_set@,
            st.order == order@,
            spec_damage_run(rule, projectiles@, st, events@.skip(idx as int)) == spec_damage_run(
                rule,
                projectiles@,
                st0,
                events@,
            ),
        decreases n - idx,
    {
        let e = events[idx];
        proof {
            lemma_damage_run_unfold(rule, projectiles@, st, events@, idx as int);
            st = spec_damage_step(rule, projectiles@, st, e);
        }
        let pair = damage_pair(rule, &e);
        if let Some((proj_id, target_id)) = pair {
            if targets.contains_key(&target_id) && projectiles.contains_key(&proj_id) {
                let damage = projectiles.get(&proj_id).unwrap().damage;
                if !despawned_set.contains(&proj_id) {
                    let mut hp = *targets.get(&target_id).unwrap();
                    hp.take_damage(damage);
                    targets.insert(target_id, hp);
                    despawned_set.insert(proj_id);
                    order.push(proj_id);
                }
                let hp_now = *targets.get(&target_id).unwrap();
                if !despawned_set.contains(&target_id) && hp_now.dead() {
                    despawned_set.insert(target_id);
                    order.push(target_id);
                }
            }
        }
        idx = idx + 1;
    }
    proof {
        assert(events@.skip(n as int) =~= Seq::<CollisionEvent>::empty());
    }
    order
}

/// Any projectile striking an obstacle: the obstacle takes the damage,
/// the projectile is spent, and a dead obstacle is despawned with it.
pub fn manage_projectile_hit_obstacles(
    events: &Vec<CollisionEvent>,
    obstacles: &mut HashMap<u64, Health>,
    projectiles: &HashMap<u64, Projectile>,
) -> (despawns: Vec<u64>)
    ensures
        ({
            let end = spec_damage_run(
                DamageRule::ProjectileHitsObstacle,
                projectiles@,
                spec_damage_init(old(obstacles)@),
                events@,
            );
            final(obstacles)@ == end.targets && despawns@ == end.order
        }),
{
    resolve_damage_events(DamageRule::ProjectileHitsObstacle, events, obstacles, projectiles)
}

/// A friendly projectile striking an enemy: the enemy takes the damage,
/// the projectile is spent, and a dead enemy is despawned with it.
pub fn manage_friendly_projectiles_hit_enemy(
    events: &Vec<CollisionEvent>,
    enemies: &mut HashMap<u64, Health>,
    projectiles: &HashMap<u64, Projectile>,
) -> (despawns: Vec<u64>)
    ensures
        ({
            let end = spec_damage_run(
                DamageRule::FriendlyProjectileHitsEnemy,
                projectiles@,
                spec_damage_init(old(enemies)@),
                events@,
            );
            final(enemies)@ == end.targets && despawns@ == end.order
        }),
{
    resolve_damage_events(DamageRule::FriendlyProjectileHitsEnemy, events, enemies, projectiles)
}

/// A hostile projectile striking a friendly unit: the unit takes the
/// damage, the projectile is spent, and a dead unit is despawned with it.
pub fn manage_hostile_projectiles_hit_friendly(
    events: &Vec<CollisionEvent>,
    friendlies: &mut HashMap<u64, Health>,
    projectiles: &HashMap<u64, Projectile>,
) -> (despawns: Vec<u64>)
    ensures
        ({
            let end = spec_damage_run(
                DamageRule::HostileProjectileHitsFriendly,
                projectiles@,
                spec_damage_init(old(friendlies)@),
                events@,
            );
            final(friendlies)@ == end.targets && despawns@ == end.order
        }),
{
    resolve_damage_events(DamageRule::HostileProjectileHitsFriendly, events, friendlies, projectiles)
}

/// Which contact pairing a plain-despawn pass handles. These contacts
/// destroy the touched unit outright, with no damage step.
#[derive(Clone, Copy, PartialEq, Eq, Structural, Debug)]
pub enum ContactRule {
    /// An enemy reaching an obstacle destroys the obstacle.
    EnemyHitsObstacle,
    /// An enemy reaching a friendly unit destroys the friendly unit.
    EnemyHitsFriendly,
}

/// Reads a started event and names the victim the contact destroys,
/// or nothing if the event does not match the rule.
pub open spec fn spec_contact_victim(rule: ContactRule, e: CollisionEvent) -> Option<u64> {
    if !e.started {
        None
    } else {
        match rule {
            ContactRule::EnemyHitsObstacle => {
                if spec_is_obstacle(e.layers_1) && spec_is_enemy(e.layers_2) {
                    Some(e.entity_1)
                } else if spec_is_enemy(e.layers_1) && spec_is_obstacle(e.layers_2) {
                    Some(e.entity_2)
                } else {
                    None
                }
            },
            ContactRule::EnemyHitsFriendly => {
                if spec_is_friendly(e.layers_1) && spec_is_enemy(e.layers_2) {
                    Some(e.entity_1)
                } else if spec_is_enemy(e.layers_1) && spec_is_friendly(e.layers_2) {
                    Some(e.entity_2)
                } else {
                    None
                }
            },
        }
    }
}

pub fn contact_victim(rule: ContactRule, e: &CollisionEvent) -> (v: Option<u64>)
    ensures
        v == spec_contact_victim(rule, *e),
{
    if !e.started {
        return None;
    }
    match rule {
        ContactRule::EnemyHitsObstacle => {
            if is_obstacle(e.layers_1) && is_enemy(e.layers_2) {
                Some(e.entity_1)
            } else if is_enemy(e.layers_1) && is_obstacle(e.layers_2) {
                Some(e.entity_2)
            } else {
                None
            }
        },
        ContactRule::EnemyHitsFriendly => {
            if is_friendly(e.layers_1) && is_enemy(e.layers_2) {
                Some(e.entity_1)
            } else if is_enemy(e.layers_1) && is_friendly(e.layers_2) {
                Some(e.entity_2)
            } else {
                None
            }
        },
    }
}

/// The state a plain-despawn pass carries from event to event.
pub struct ContactState {
    pub despawned: Set<u64>,
    pub order: Seq<u64>,
}

/// The state a pass starts from: nothing despawned, no commands issued.
pub open spec fn spec_contact_init() -> ContactState {
    ContactState { despawned: Set::empty(), order: Seq::empty() }
}

/// Resolution of a single event: a victim not yet despawned is despawned.
pub open spec fn spec_contact_step(
    rule: ContactRule,
    st: ContactState,
    e: CollisionEvent,
) -> ContactState {
    match spec_contact_victim(rule, e) {
        None => st,
        Some(victim) => {
            if !st.despawned.contains(victim) {
                ContactState {
                    despawned: st.despawned.insert(victim),
                    order: st.order.push(victim),
                }
            } else {
                st
            }
        },
    }
}

/// Resolution of a whole sequence of events, first to last.
pub open spec fn spec_contact_run(
    rule: ContactRule,
    st: ContactState,
    events: Seq<CollisionEvent>,
) -> ContactState
    decreases events.len(),
{
    if events.len() == 0 {
        st
    } else {
        spec_contact_run(rule, spec_contact_step(rule, st, events[0]), events.drop_first())
    }
}

proof fn lemma_contact_run_unfold(
    rule: ContactRule,
    st: ContactState,
    events: Seq<CollisionEvent>,
    i: int,
)
    requires
        0 <= i < events.len(),
    ensures
        spec_contact_run(rule, st, events.skip(i)) == spec_contact_run(
            rule,
            spec_contact_step(rule, st, events[i]),
            events.skip(i + 1),
        ),
{
    assert(events.skip(i)[0] == events[i]);
    assert(events.skip(i).drop_first() =~= events.skip(i + 1));
}

/// Runs one plain-despawn pass over the reported events: every distinct
/// victim of a matching contact is despawned once, in order of first
/// contact.
pub fn resolve_contact_events(rule: ContactRule, events: &Vec<CollisionEvent>) -> (despawns: Vec<
    u64,
>)
    ensures
        despawns@ == spec_contact_run(rule, spec_contact_init(), events@).order,
{
    let ghost st0 = spec_contact_init();
    let ghost mut st = st0;
    let mut despawned_set: HashSet<u64> = HashSet::new();
    let mut order: Vec<u64> = Vec::new();
    proof {
        assert(events@.skip(0) =~= events@);
    }
    let n = events.len();
    let mut idx: usize = 0;
    while idx < n
        invariant
            n == events@.len(),
            idx <= n,
            st0 == spec_contact_init(),
            st.despawned == despawned_set@,
            st.order == order@,
            spec_contact_run(rule, st, events@.skip(idx as int)) == spec_contact_run(
                rule,
                st0,
                events@,
            ),
        decreases n - idx,
    {
        let e = events[idx];
        proof {
            lemma_contact_run_unfold(rule, st, events@, idx as int);
            st = spec_contact_step(rule, st, e);
        }
        if let Some(victim) = contact_victim(rule, &e) {
            if !despawned_set.contains(&victim) {
                despawned_set.insert(victim);
                order.push(victim);
            }
        }
        idx = idx + 1;
    }
    proof {
        assert(events@.skip(n as int) =~= Seq::<CollisionEvent>::empty());
    }
    order
}

/// An enemy that reaches an obstacle destroys it: the obstacle is
/// despawned, once, however many contacts report it.
pub fn manage_enemy_hit_obstacles(events: &Vec<CollisionEvent>) -> (despawns: Vec<u64>)
    ensures
        despawns@ == spec_contact_run(
            ContactRule::EnemyHitsObstacle,
            spec_contact_init(),
            events@,
        ).order,
{
    resolve_contact_events(ContactRule::EnemyHitsObstacle, events)
}

/// An enemy that reaches a friendly unit destroys it: the unit is
/// despawned, once, however many contacts report it.
pub fn manage_enemy_hit_friendly(events: &Vec<CollisionEvent>) -> (despawns: Vec<u64>)
    ensures
        despawns@ == spec_contact_run(
            ContactRule::EnemyHitsFriendly,
            spec_contact_init(),
            events@,
        ).order,
{
    resolve_contact_events(ContactRule::EnemyHitsFriendly, events)
}

/// The event mentions the entity and the contact has started.
pub open spec fn spec_event_names(e: CollisionEvent, id: u64) -> bool {
    e.started && (id == e.entity_1 || id == e.entity_2)
}

pub(crate) proof fn lemma_order_push(order: Seq<u64>, despawned: Set<u64>, x: u64)
    requires
        order.no_duplicates(),
        despawned == order.to_set(),
        !despawned.contains(x),
    ensures
        order.push(x).no_duplicates(),
        despawned.insert(x) == order.push(x).to_set(),
{
    assert(!order.contains(x));
    assert(forall|i: int| 0 <= i < order.len() ==> order[i] != x);
    assert(order.push(x).no_duplicates());
    assert forall|y: u64| order.push(x).contains(y) implies despawned.insert(x).contains(y) by {
        let i = choose|i: int| 0 <= i < order.push(x).len() && order.push(x)[i] == y;
        if i < order.len() {
            assert(order[i] == y);
            assert(order.contains(y));
        }
    }
    assert forall|y: u64| despawned.insert(x).contains(y) implies order.push(x).contains(y) by {
        if y == x {
            assert(order.push(x)[order.len() as int] == y);
        } else {
            assert(order.contains(y));
            let i = choose|i: int| 0 <= i < order.len() && order[i] == y;
            assert(order.push(x)[i] == y);
        }
    }
    assert(despawned.insert(x) =~= order.push(x).to_set());
}

proof fn lemma_damage_step_props(
    rule: DamageRule,
    projectiles: Map<u64, Projectile>,
    st: DamageState,
    e: CollisionEvent,
)
    requires
        st.order.no_duplicates(),
        st.despawned == st.order.to_set(),
    ensures
        ({
            let st2 = spec_damage_step(rule, projectiles, st, e);
            &&& st2.order.no_duplicates()
            &&& st2.despawned == st2.order.to_set()
            &&& st2.targets.dom() == st.targets.dom()
            &&& forall|id: u64|
                st.targets.contains_key(id) ==> st2.targets[id].original_hp
                    == st.targets[id].original_hp && st2.targets[id].current_hp
                    <= st.targets[id].current_hp
            &&& forall|id: u64|
                st2.order.contains(id) ==> st.order.contains(id) || spec_event_names(e, id)
        }),
{
    let st2 = spec_damage_step(rule, projectiles, st, e);
    match spec_damage_pair(rule, e) {
        None => {},
        Some(pair) => {
            let proj_id = pair.0;
            let target_id = pair.1;
            if st.targets.contains_key(target_id) && projectiles.contains_key(proj_id) {
                let damage = projectiles[proj_id].damage;
                if !st.despawned.contains(proj_id) {
                    lemma_order_push(st.order, st.despawned, proj_id);
                    assert(st.targets.insert(
                        target_id,
                        spec_damaged(st.targets[target_id], damage),
                    ).dom() =~= st.targets.dom());
                }
                let st1 = if !st.despawned.contains(proj_id) {
                    DamageState {
                        targets: st.targets.insert(
                            target_id,
                            spec_damaged(st.targets[target_id], damage),
                        ),
                        despawned: st.despawned.insert(proj_id),
                        order: st.order.push(proj_id),
                    }
                } else {
                    st
                };
                if !st1.despawned.contains(target_id) && st1.targets[target_id].spec_dead() {
                    lemma_order_push(st1.order, st1.despawned, target_id);
                }
            }
        },
    }
}

proof fn lemma_damage_despawns_once_rec(
    rule: DamageRule,
    projectiles: Map<u64, Projectile>,
    st: DamageState,
    events: Seq<CollisionEvent>,
)
    requires
        st.order.no_duplicates(),
        st.despawned == st.order.to_set(),
    ensures
        ({
            let end = spec_damage_run(rule, projectiles, st, events);
            &&& end.order.no_duplicates()
            &&& end.despawned == end.order.to_set()
        }),
    decreases events.len(),
{
    if events.len() > 0 {
        lemma_damage_step_props(rule, projectiles, st, events[0]);
        lemma_damage_despawns_once_rec(
            rule,
            projectiles,
            spec_damage_step(rule, projectiles, st, events[0]),
            events.drop_first(),
        );
    }
}

proof fn lemma_damage_health_monotone_rec(
    rule: DamageRule,
    projectiles: Map<u64, Projectile>,
    st: DamageState,
    events: Seq<CollisionEvent>,
)
    requires
        st.order.no_duplicates(),
        st.despawned == st.order.to_set(),
    ensures
        ({
            let end = spec_damage_run(rule, projectiles, st, events);
            &&& end.targets.dom() == st.targets.dom()
            &&& forall|id: u64|
                st.targets.contains_key(id) ==> end.targets[id].original_hp
                    == st.targets[id].original_hp && end.targets[id].current_hp
                    <= st.targets[id].current_hp
        }),
    decreases events.len(),
{
    if events.len() > 0 {
        lemma_damage_step_props(rule, projectiles, st, events[0]);
        lemma_damage_health_monotone_rec(
            rule,
            projectiles,
            spec_damage_step(rule, projectiles, st, events[0]),
            events.drop_first(),
        );
    }
}

proof fn lemma_despawned_target_is_dead_rec(
    rule: DamageRule,
    projectiles: Map<u64, Projectile>,
    st: DamageState,
    events: Seq<CollisionEvent>,
)
    requires
        forall|id: u64| projectiles.contains_key(id) ==> !st.targets.contains_key(id),
        forall|id: u64|
            st.despawned.contains(id) && st.targets.contains_key(id)
                ==> st.targets[id].current_hp == 0,
    ensures
        ({
            let end = spec_damage_run(rule, projectiles, st, events);
            &&& end.targets.dom() == st.targets.dom()
            &&& forall|id: u64|
                end.despawned.contains(id) && end.targets.contains_key(id)
                    ==> end.targets[id].current_hp == 0
        }),
    decreases events.len(),
{
    if events.len() > 0 {
        let e = events[0];
        let st2 = spec_damage_step(rule, projectiles, st, e);
        assert(st2.targets.dom() =~= st.targets.dom()) by {
            match spec_damage_pair(rule, e) {
                None => {},
                Some(pair) => {
                    if st.targets.contains_key(pair.1) && projectiles.contains_key(pair.0) {
                        assert(st.targets.insert(
                            pair.1,
                            spec_damaged(st.targets[pair.1], projectiles[pair.0].damage),
                        ).dom() =~= st.targets.dom());
                    }
                },
            }
        }
        lemma_despawned_target_is_dead_rec(rule, projectiles, st2, events.drop_first());
    }
}

proof fn lemma_damage_despawns_from_events_rec(
    rule: DamageRule,
    projectiles: Map<u64, Projectile>,
    st: DamageState,
    events: Seq<CollisionEvent>,
)
    requires
        st.order.no_duplicates(),
        st.despawned == st.order.to_set(),
    ensures
        ({
            let end = spec_damage_run(rule, projectiles, st, events);
            forall|id: u64|
                end.order.contains(id) ==> st.order.contains(id) || exists|j: int|
                    0 <= j < events.len() && spec_event_names(#[trigger] events[j], id)
        }),
    decreases events.len(),
{
    if events.len() > 0 {
        let e = events[0];
        let st2 = spec_damage_step(rule, projectiles, st, e);
        lemma_damage_step_props(rule, projectiles, st, e);
        lemma_damage_despawns_from_events_rec(rule, projectiles, st2, events.drop_first());
        let end = spec_damage_run(rule, projectiles, st, events);
        assert forall|id: u64| end.order.contains(id) implies st.order.contains(id) || exists|
            j: int,
        | 0 <= j < events.len() && spec_event_names(#[trigger] events[j], id) by {
            if !st.order.contains(id) {
                if st2.order.contains(id) && spec_event_names(e, id) {
                    assert(spec_event_names(events[0], id));
                } else {
                    let j = choose|j: int|
                        0 <= j < events.drop_first().len() && spec_event_names(
                            #[trigger] events.drop_first()[j],
                            id,
                        );
                    assert(events.drop_first()[j] == events[j + 1]);
                    assert(spec_event_names(events[j + 1], id));
                }
            }
        }
    }
}

proof fn lemma_contact_step_props(rule: ContactRule, st: ContactState, e: CollisionEvent)
    requires
        st.order.no_duplicates(),
        st.despawned == st.order.to_set(),
    ensures
        ({
            let st2 = spec_contact_step(rule, st, e);
            &&& st2.order.no_duplicates()
            &&& st2.despawned == st2.order.to_set()
            &&& forall|id: u64|
                st2.order.contains(id) ==> st.order.contains(id) || spec_event_names(e, id)
        }),
{
    match spec_contact_victim(rule, e) {
        None => {},
        Some(victim) => {
            if !st.despawned.contains(victim) {
                lemma_order_push(st.order, st.despawned, victim);
            }
        },
    }
}

proof fn lemma_contact_despawns_once_rec(
    rule: ContactRule,
    st: ContactState,
    events: Seq<CollisionEvent>,
)
    requires
        st.order.no_duplicates(),
        st.despawned == st.order.to_set(),
    ensures
        ({
            let end = spec_contact_run(rule, st, events);
            &&& end.order.no_duplicates()
            &&& end.despawned == end.order.to_set()
            &&& forall|id: u64|
                end.order.contains(id) ==> st.order.contains(id) || exists|j: int|
                    0 <= j < events.len() && spec_event_names(#[trigger] events[j], id)
        }),
    decreases events.len(),
{
    if events.len() > 0 {
        let e = events[0];
        let st2 = spec_contact_step(rule, st, e);
        lemma_contact_step_props(rule, st, e);
        lemma_contact_despawns_once_rec(rule, st2, events.drop_first());
        let end = spec_contact_run(rule, st, events);
        assert forall|id: u64| end.order.contains(id) implies st.order.contains(id) || exists|
            j: int,
        | 0 <= j < events.len() && spec_event_names(#[trigger] events[j], id) by {
            if !st.order.contains(id) {
                if st2.order.contains(id) && spec_event_names(e, id) {
                    assert(spec_event_names(events[0], id));
                } else {
                    let j = choose|j: int|
                        0 <= j < events.drop_first().len() && spec_event_names(
                            #[trigger] events.drop_first()[j],
                            id,
                        );
                    assert(events.drop_first()[j] == events[j + 1]);
                    assert(spec_event_names(events[j + 1], id));
                }
            }
        }
    }
}

proof fn lemma_empty_order()
    ensures
        Seq::<u64>::empty().to_set() == Set::<u64>::empty(),
{
    assert(Seq::<u64>::empty().to_set() =~= Set::<u64>::empty());
}

/// Entities are removed exactly once: the despawn commands a
/// damage-resolution pass issues never name an entity twice, and the set
/// of despawned entities is exactly what the commands name.
pub proof fn lemma_damage_despawns_once(
    rule: DamageRule,
    projectiles: Map<u64, Projectile>,
    targets: Map<u64, Health>,
    events: Seq<CollisionEvent>,
)
    ensures
        ({
            let end = spec_damage_run(rule, projectiles, spec_damage_init(targets), events);
            &&& end.order.no_duplicates()
            &&& end.despawned == end.order.to_set()
        }),
{
    lemma_empty_order();
    lemma_damage_despawns_once_rec(rule, projectiles, spec_damage_init(targets), events);
}

/// Damage only ever wears health down: a resolution pass keeps every
/// target known, never raises a target's remaining hit points, and never
/// touches what a target started with.
pub proof fn lemma_damage_health_monotone(
    rule: DamageRule,
    projectiles: Map<u64, Projectile>,
    targets: Map<u64, Health>,
    events: Seq<CollisionEvent>,
)
    ensures
        ({
            let end = spec_damage_run(rule, projectiles, spec_damage_init(targets), events);
            &&& end.targets.dom() == targets.dom()
            &&& forall|id: u64|
                targets.contains_key(id) ==> end.targets[id].original_hp
                    == targets[id].original_hp && end.targets[id].current_hp
                    <= targets[id].current_hp
        }),
{
    lemma_empty_order();
    lemma_damage_health_monotone_rec(rule, projectiles, spec_damage_init(targets), events);
}

/// Entities die at zero health: provided no entity is both a projectile
/// and a target, every target that a pass despawns is left with exactly
/// zero hit points.
pub proof fn lemma_despawned_target_is_dead(
    rule: DamageRule,
    projectiles: Map<u64, Projectile>,
    targets: Map<u64, Health>,
    events: Seq<CollisionEvent>,
)
    requires
        forall|id: u64| projectiles.contains_key(id) ==> !targets.contains_key(id),
    ensures
        ({
            let end = spec_damage_run(rule, projectiles, spec_damage_init(targets), events);
            &&& end.targets.dom() == targets.dom()
            &&& forall|id: u64|
                end.despawned.contains(id) && end.targets.contains_key(id)
                    ==> end.targets[id].current_hp == 0
        }),
{
    lemma_despawned_target_is_dead_rec(rule, projectiles, spec_damage_init(targets), events);
}

/// No phantom despawns: every entity a damage-resolution pass despawns is
/// named by one of the started events it was given.
pub proof fn lemma_damage_despawns_from_events(
    rule: DamageRule,
    projectiles: Map<u64, Projectile>,
    targets: Map<u64, Health>,
    events: Seq<CollisionEvent>,
)
    ensures
        ({
            let end = spec_damage_run(rule, projectiles, spec_damage_init(targets), events);
            forall|id: u64|
                end.order.contains(id) ==> exists|j: int|
                    0 <= j < events.len() && spec_event_names(#[trigger] events[j], id)
        }),
{
    lemma_empty_order();
    lemma_damage_despawns_from_events_rec(rule, projectiles, spec_damage_init(targets), events);
}

/// Removed exactly once holds of the contact passes too, and every entity
/// they despawn comes from one of the started events.
pub proof fn lemma_contact_despawns_once(rule: ContactRule, events: Seq<CollisionEvent>)
    ensures
        ({
            let end = spec_contact_run(rule, spec_contact_init(), events);
            &&& end.order.no_duplicates()
            &&& end.despawned == end.order.to_set()
            &&& forall|id: u64|
                end.order.contains(id) ==> exists|j: int|
                    0 <= j < events.len() && spec_event_names(#[trigger] events[j], id)
        }),
{
    lemma_empty_order();
    lemma_contact_despawns_once_rec(rule, spec_contact_init(), events);
}

} // verus!

