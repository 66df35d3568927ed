use space_invaders::geometry::{aabb_overlap, Vec2i};
use space_invaders::shared::attributes::{Health, MovementSpeed};
use space_invaders::shared::physics::{
    is_enemy, is_friendly, is_friendly_projectile, is_hostile_projectile, is_obstacle, is_player,
    is_projectile, CollisionLayers, WorldPhysicsLayer,
};
use space_invaders::{scaled_size, AssetScaling, Game, SpriteInfo, WinSize};

fn sprite(w: i64, h: i64) -> SpriteInfo {
    SpriteInfo { size: Vec2i { x: w, y: h } }
}

#[test]
fn health_starts_full_and_dies_at_zero() {
    let h = Health::default();
    assert_eq!(h.original_hp, 1);
    assert_eq!(h.current_hp, 1);
    assert!(!h.dead());

    let mut h = Health::from(3);
    assert_eq!(h.original_hp, 3);
    h.take_damage(2);
    assert_eq!(h.current_hp, 1);
    assert!(!h.dead());
    h.take_damage(5);
    assert_eq!(h.current_hp, 0);
    assert!(h.dead());
}

#[test]
fn movement_speed_default_is_125_pixels_per_second() {
    assert_eq!(MovementSpeed::default().value, 125_000);
}

#[test]
fn game_and_window_defaults() {
    assert_eq!(Game::default().active_enemies, 0);
    let w = WinSize::default();
    assert_eq!(w.w, 600_000);
    assert_eq!(w.h, 600_000);
    let s = AssetScaling::default();
    assert_eq!(s.enemy_projectile, Vec2i { x: 500, y: 500 });
    assert_eq!(s.player_projectile, Vec2i { x: 500, y: 500 });
}

#[test]
fn scaled_size_halves_at_500_thousandths() {
    let r = scaled_size(Vec2i { x: 100_000, y: 60_000 }, Vec2i { x: 500, y: 500 });
    assert_eq!(r, Vec2i { x: 50_000, y: 30_000 });
    let full = scaled_size(Vec2i { x: 7_000, y: 9_000 }, Vec2i { x: 1000, y: 1000 });
    assert_eq!(full, Vec2i { x: 7_000, y: 9_000 });
}

#[test]
fn layer_classifiers_read_groups() {
    let player = CollisionLayers::none()
        .with_group(WorldPhysicsLayer::Player)
        .with_group(WorldPhysicsLayer::Friendly)
        .with_mask(WorldPhysicsLayer::Enemy)
        .with_mask(WorldPhysicsLayer::HostileProjectile);
    assert!(is_player(player));
    assert!(is_friendly(player));
    assert!(!is_enemy(player));
    assert!(!is_projectile(player));
    assert!(!is_obstacle(player));

    let alien = CollisionLayers::none()
        .with_group(WorldPhysicsLayer::Enemy)
        .with_mask(WorldPhysicsLayer::Player);
    assert!(is_enemy(alien));
    assert!(!is_player(alien));
    assert!(!is_friendly(alien));

    let friendly_shot = CollisionLayers::none()
        .with_group(WorldPhysicsLayer::Projectile)
        .with_group(WorldPhysicsLayer::FriendlyProjectile);
    assert!(is_projectile(friendly_shot));
    assert!(is_friendly_projectile(friendly_shot));
    assert!(!is_hostile_projectile(friendly_shot));

    let hostile_shot = CollisionLayers::none()
        .with_group(WorldPhysicsLayer::Projectile)
        .with_group(WorldPhysicsLayer::HostileProjectile);
    assert!(is_projectile(hostile_shot));
    assert!(is_hostile_projectile(hostile_shot));
    assert!(!is_friendly_projectile(hostile_shot));

    let obstacle = CollisionLayers::none().with_group(WorldPhysicsLayer::Obstacle);
    assert!(is_obstacle(obstacle));
    assert!(!is_projectile(obstacle));

    // A body in both projectile camps counts as neither side's projectile.
    let both = CollisionLayers::none()
        .with_group(WorldPhysicsLayer::FriendlyProjectile)
        .with_group(WorldPhysicsLayer::HostileProjectile);
    assert!(!is_friendly_projectile(both));
    assert!(!is_hostile_projectile(both));
}

#[test]
fn aabb_overlap_is_strict() {
    let origin = Vec2i { x: 0, y: 0 };
    let ten = Vec2i { x: 10_000, y: 10_000 };
    // Centres 10 apart with extents summing to 20: edges touch, no overlap.
    assert!(!aabb_overlap(origin, ten, Vec2i { x: 10_000, y: 0 }, ten));
    // A little closer: overlap.
    assert!(aabb_overlap(origin, ten, Vec2i { x: 9_999, y: 0 }, ten));
    // Apart on the y axis alone is enough to miss.
    assert!(!aabb_overlap(origin, ten, Vec2i { x: 0, y: 20_000 }, ten));
    assert!(aabb_overlap(origin, ten, origin, ten));
}
