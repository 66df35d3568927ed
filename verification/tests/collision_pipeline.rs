use space_invaders::shared::attributes::Health;
use space_invaders::shared::physics::{
    manage_enemy_hit_friendly, manage_enemy_hit_obstacles, manage_friendly_projectiles_hit_enemy,
    manage_hostile_projectiles_hit_friendly, manage_projectile_hit_obstacles, CollisionEvent,
    CollisionLayers, WorldPhysicsLayer,
};
use space_invaders::shared::weapons::Projectile;
use std::collections::HashMap;

fn obstacle_layers() -> CollisionLayers {
    CollisionLayers::none().with_group(WorldPhysicsLayer::Obstacle)
}

fn enemy_layers() -> CollisionLayers {
    CollisionLayers::none().with_group(WorldPhysicsLayer::Enemy)
}

fn friendly_layers() -> CollisionLayers {
    CollisionLayers::none().with_group(WorldPhysicsLayer::Friendly)
}

fn friendly_shot_layers() -> CollisionLayers {
    CollisionLayers::none()
        .with_group(WorldPhysicsLayer::Projectile)
        .with_group(WorldPhysicsLayer::FriendlyProjectile)
}

fn hostile_shot_layers() -> CollisionLayers {
    CollisionLayers::none()
        .with_group(WorldPhysicsLayer::Projectile)
        .with_group(WorldPhysicsLayer::HostileProjectile)
}

fn event(
    started: bool,
    e1: u64,
    l1: CollisionLayers,
    e2: u64,
    l2: CollisionLayers,
) -> CollisionEvent {
    CollisionEvent { started, entity_1: e1, layers_1: l1, entity_2: e2, layers_2: l2 }
}

#[test]
fn projectile_kills_obstacle_and_both_despawn() {
    let mut obstacles: HashMap<u64, Health> = HashMap::new();
    obstacles.insert(10, Health::from(1));
    let mut projectiles: HashMap<u64, Projectile> = HashMap::new();
    projectiles.insert(20, Projectile::default());

    let events = vec![event(true, 10, obstacle_layers(), 20, friendly_shot_layers())];
    let despawns = manage_projectile_hit_obstacles(&events, &mut obstacles, &projectiles);

    assert_eq!(despawns, vec![20, 10]);
    assert_eq!(obstacles.get(&10).unwrap().current_hp, 0);
}

#[test]
fn duplicate_events_despawn_once() {
    let mut obstacles: HashMap<u64, Health> = HashMap::new();
    obstacles.insert(10, Health::from(1));
    let mut projectiles: HashMap<u64, Projectile> = HashMap::new();
    projectiles.insert(20, Projectile::default());

    let hit = event(true, 10, obstacle_layers(), 20, friendly_shot_layers());
    let events = vec![hit, hit];
    let despawns = manage_projectile_hit_obstacles(&events, &mut obstacles, &projectiles);

    assert_eq!(despawns, vec![20, 10]);
    assert_eq!(obstacles.get(&10).unwrap().current_hp, 0);
}

#[test]
fn two_projectiles_one_obstacle_stops_at_zero() {
    let mut obstacles: HashMap<u64, Health> = HashMap::new();
    obstacles.insert(10, Health::from(1));
    let mut projectiles: HashMap<u64, Projectile> = HashMap::new();
    projectiles.insert(20, Projectile::default());
    projectiles.insert(21, Projectile::default());

    let events = vec![
        event(true, 10, obstacle_layers(), 20, friendly_shot_layers()),
        event(true, 21, friendly_shot_layers(), 10, obstacle_layers()),
    ];
    let despawns = manage_projectile_hit_obstacles(&events, &mut obstacles, &projectiles);

    // The first shot kills the block; the second is still spent on it, but
    // the block is despawned only once and its health stays at zero.
    assert_eq!(despawns, vec![20, 10, 21]);
    assert_eq!(obstacles.get(&10).unwrap().current_hp, 0);
}

#[test]
fn stopped_or_mismatched_events_do_nothing() {
    let mut obstacles: HashMap<u64, Health> = HashMap::new();
    obstacles.insert(10, Health::from(1));
    let mut projectiles: HashMap<u64, Projectile> = HashMap::new();
    projectiles.insert(20, Projectile::default());

    let events = vec![
        // Contact ended, not started.
        event(false, 10, obstacle_layers(), 20, friendly_shot_layers()),
        // Wrong pairing for this pass.
        event(true, 10, enemy_layers(), 20, friendly_shot_layers()),
        // Entities the pass does not know.
        event(true, 99, obstacle_layers(), 98, friendly_shot_layers()),
    ];
    let despawns = manage_projectile_hit_obstacles(&events, &mut obstacles, &projectiles);

    assert!(despawns.is_empty());
    assert_eq!(obstacles.get(&10).unwrap().current_hp, 1);
}

#[test]
fn friendly_projectile_wears_enemy_down() {
    let mut enemies: HashMap<u64, Health> = HashMap::new();
    enemies.insert(5, Health::from(2));
    let mut projectiles: HashMap<u64, Projectile> = HashMap::new();
    projectiles.insert(30, Projectile::default());
    projectiles.insert(31, Projectile::default());

    let first = vec![event(true, 30, friendly_shot_layers(), 5, enemy_layers())];
    let despawns = manage_friendly_projectiles_hit_enemy(&first, &mut enemies, &projectiles);
    // The enemy survives at one hit point; only the shot is spent.
    assert_eq!(despawns, vec![30]);
    assert_eq!(enemies.get(&5).unwrap().current_hp, 1);

    let second = vec![event(true, 5, enemy_layers(), 31, friendly_shot_layers())];
    let despawns = manage_friendly_projectiles_hit_enemy(&second, &mut enemies, &projectiles);
    assert_eq!(despawns, vec![31, 5]);
    assert_eq!(enemies.get(&5).unwrap().current_hp, 0);
}

#[test]
fn hostile_projectile_hits_friendly() {
    let mut friendlies: HashMap<u64, Health> = HashMap::new();
    friendlies.insert(1, Health::from(1));
    let mut projectiles: HashMap<u64, Projectile> = HashMap::new();
    projectiles.insert(40, Projectile::default());

    let events = vec![event(true, 40, hostile_shot_layers(), 1, friendly_layers())];
    let despawns = manage_hostile_projectiles_hit_friendly(&events, &mut friendlies, &projectiles);

    assert_eq!(despawns, vec![40, 1]);
    assert!(friendlies.get(&1).unwrap().current_hp == 0);
}

#[test]
fn enemy_contact_despawns_obstacle_once() {
    let events = vec![
        event(true, 10, obstacle_layers(), 5, enemy_layers()),
        event(true, 5, enemy_layers(), 10, obstacle_layers()),
        event(true, 11, obstacle_layers(), 5, enemy_layers()),
        event(false, 12, obstacle_layers(), 5, enemy_layers()),
    ];
    let despawns = manage_enemy_hit_obstacles(&events);
    assert_eq!(despawns, vec![10, 11]);
}

#[test]
fn enemy_contact_despawns_friendly() {
    let events = vec![
        event(true, 1, friendly_layers(), 5, enemy_layers()),
        event(true, 1, friendly_layers(), 6, enemy_layers()),
    ];
    let despawns = manage_enemy_hit_friendly(&events);
    assert_eq!(despawns, vec![1]);
}
