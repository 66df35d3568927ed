use space_invaders::entities::player::{
    player_movement, player_shooting, setup_player, PlayerBundle,
};
use space_invaders::geometry::Vec2i;
use space_invaders::shared::attributes::MovementSpeed;
use space_invaders::shared::physics::RigidBody;
use space_invaders::shared::weapons::{manage_all_weapons_state, WeaponState};
use space_invaders::units;
use space_invaders::units::enemy::enemy_spawn;
use space_invaders::units::weapons::{
    move_player_projectiles, player_projectiles_hits_enemies, MovingProjectile, ScaledBody,
};
use space_invaders::units::Velocity;
use space_invaders::{AssetScaling, Game, SpriteInfo, SpriteInfos, WinSize};

fn sprite(w: i64, h: i64) -> SpriteInfo {
    SpriteInfo { size: Vec2i { x: w, y: h } }
}

fn sprites() -> SpriteInfos {
    SpriteInfos {
        player: sprite(98_000, 75_000),
        player_laser: sprite(9_000, 54_000),
        red_enemy: sprite(93_000, 84_000),
        green_enemy: sprite(93_000, 84_000),
        yellow_enemy: sprite(93_000, 84_000),
        alien_laser: sprite(9_000, 37_000),
        top_alien: sprite(93_000, 84_000),
    }
}

#[test]
fn player_spawns_near_the_bottom() {
    let win = WinSize::default();
    let infos = sprites();
    let b: PlayerBundle = setup_player(&win, &infos);
    assert_eq!(b.pos, Vec2i { x: 0, y: -275_000 });
    assert_eq!(b.state.name, "Player 1");
    assert_eq!(b.ship.hp.current_hp, 1);
    assert_eq!(b.phys.rigid_body, RigidBody::KinematicPositionBased);
}

#[test]
fn player_moves_and_respects_the_window() {
    let win = WinSize::default();
    let infos = sprites();
    let speed = MovementSpeed::default();

    let mut tf = Vec2i { x: 0, y: -275_000 };
    player_movement(&mut tf, &speed, true, false, &win, &infos);
    // 125 pixels per second is 2083 milli-pixels per tick, moving left.
    assert_eq!(tf, Vec2i { x: -2_083, y: -275_000 });

    player_movement(&mut tf, &speed, false, true, &win, &infos);
    assert_eq!(tf, Vec2i { x: 0, y: -275_000 });

    // Left wins when both keys are down.
    player_movement(&mut tf, &speed, true, true, &win, &infos);
    assert_eq!(tf.x, -2_083);

    // The bound is half the window less half the ship: 251 pixels. A step
    // that would cross it is not taken.
    let mut at_edge = Vec2i { x: 250_000, y: -275_000 };
    player_movement(&mut at_edge, &speed, false, true, &win, &infos);
    assert_eq!(at_edge.x, 250_000);

    let mut near_edge = Vec2i { x: 248_000, y: -275_000 };
    player_movement(&mut near_edge, &speed, false, true, &win, &infos);
    assert_eq!(near_edge.x, 250_083);
}

#[test]
fn trigger_fires_only_a_ready_weapon() {
    let infos = sprites();
    let scaling = AssetScaling::default();
    let mut weapon = WeaponState::fast_normal_weapon();
    let pos = Vec2i { x: 0, y: -275_000 };

    // Key not pressed: nothing happens.
    assert!(player_shooting(pos, &mut weapon, 500, false, &infos, &scaling).is_none());
    assert!(weapon.ready);

    let shot = player_shooting(pos, &mut weapon, 500, true, &infos, &scaling).unwrap();
    assert_eq!(shot.velocity, Vec2i { x: 0, y: 700_000 });
    assert_eq!(shot.size, Vec2i { x: 4_500, y: 27_000 });
    assert!(shot.from_player);
    assert!(!weapon.ready);
    assert_eq!(weapon.last_fired, 500);

    // The weapon is spent until the cooldown system resets it.
    assert!(player_shooting(pos, &mut weapon, 600, true, &infos, &scaling).is_none());
}

#[test]
fn cooldown_system_resets_weapons_in_time() {
    let mut weapons = vec![WeaponState::fast_normal_weapon()];
    weapons[0].fired(1_000);

    // Within the cooldown nothing changes.
    manage_all_weapons_state(&mut weapons, 1_100);
    assert!(!weapons[0].ready);
    manage_all_weapons_state(&mut weapons, 1_200);
    assert!(!weapons[0].ready);

    // One millisecond past it, the weapon is ready again.
    manage_all_weapons_state(&mut weapons, 1_201);
    assert!(weapons[0].ready);
    assert_eq!(weapons[0].last_fired, 0);

    // A weapon with no shot on record is made ready outright.
    let mut fresh = vec![WeaponState { ready: false, ..WeaponState::fast_normal_weapon() }];
    manage_all_weapons_state(&mut fresh, 0);
    assert!(fresh[0].ready);
}

#[test]
fn units_defaults_match_the_older_roster() {
    let w = units::weapons::WeaponState::default();
    assert!(w.ready);
    assert_eq!(w.cooldown, 300);
    assert_eq!(w.projectile_speed, 600_000);

    assert_eq!(Velocity::default().0, Vec2i { x: 0, y: 600_000 });
    assert_eq!(Velocity::normal_projectile().0, Vec2i { x: 0, y: 600_000 });

    let (pos, bundle) = units::player::player_spawn(&WinSize::default());
    assert_eq!(pos, Vec2i { x: 0, y: -270_000 });
    assert_eq!(bundle.name.0, "Player 1");
    assert_eq!(bundle.movement_speed.0, 250_000);
    assert_eq!(bundle.main_weapon_state.cooldown, 200);
}

#[test]
fn units_trigger_drops_a_half_scale_laser() {
    let mut weapon = units::weapons::WeaponState::default();
    let laser =
        units::player::player_shooting(Vec2i { x: 10_000, y: 0 }, &mut weapon, 42, true).unwrap();
    assert_eq!(laser.pos, Vec2i { x: 10_000, y: 0 });
    assert_eq!(laser.scale, Vec2i { x: 500, y: 500 });
    assert_eq!(laser.velocity, Vec2i { x: 0, y: 600_000 });
    assert!(!weapon.ready);
    assert_eq!(weapon.last_fired, 42);
}

#[test]
fn projectiles_fly_up_and_leave_at_the_top() {
    let win = WinSize::default();
    let mut projs = vec![
        MovingProjectile { id: 1, velocity: Vec2i { x: 0, y: 600_000 }, pos: Vec2i { x: 0, y: 0 } },
        MovingProjectile {
            id: 2,
            velocity: Vec2i { x: 0, y: 600_000 },
            pos: Vec2i { x: 0, y: 595_000 },
        },
    ];
    let despawns = move_player_projectiles(&mut projs, &win);
    // 600 pixels per second is 10 pixels per tick.
    assert_eq!(projs[0].pos, Vec2i { x: 0, y: 10_000 });
    assert_eq!(projs[1].pos, Vec2i { x: 0, y: 605_000 });
    // Only the projectile past the window height leaves.
    assert_eq!(despawns, vec![2]);
}

#[test]
fn units_hits_knock_out_enemy_and_projectile() {
    let infos = sprites();
    let projectiles = vec![ScaledBody {
        id: 100,
        pos: Vec2i { x: 0, y: 0 },
        scale: Vec2i { x: 500, y: 500 },
    }];
    let enemies = vec![
        ScaledBody { id: 1, pos: Vec2i { x: 10_000, y: 0 }, scale: Vec2i { x: 1000, y: 1000 } },
        ScaledBody { id: 2, pos: Vec2i { x: 400_000, y: 0 }, scale: Vec2i { x: 1000, y: 1000 } },
    ];
    let mut game = Game { active_enemies: 2 };

    let despawns = player_projectiles_hits_enemies(&projectiles, &enemies, &mut game, &infos);

    assert_eq!(despawns, vec![1, 100]);
    assert_eq!(game.active_enemies, 1);
}

#[test]
fn units_scan_names_each_entity_once() {
    let infos = sprites();

    // One projectile overlapping two enemies: both enemies are knocked out
    // and counted, the projectile is named only once.
    let one_shot = vec![ScaledBody {
        id: 100,
        pos: Vec2i { x: 0, y: 0 },
        scale: Vec2i { x: 500, y: 500 },
    }];
    let two_enemies = vec![
        ScaledBody { id: 1, pos: Vec2i { x: 10_000, y: 0 }, scale: Vec2i { x: 1000, y: 1000 } },
        ScaledBody { id: 2, pos: Vec2i { x: -10_000, y: 0 }, scale: Vec2i { x: 1000, y: 1000 } },
    ];
    let mut game = Game { active_enemies: 2 };
    let despawns = player_projectiles_hits_enemies(&one_shot, &two_enemies, &mut game, &infos);
    assert_eq!(despawns, vec![1, 100, 2]);
    assert_eq!(game.active_enemies, 0);

    // Two projectiles overlapping one enemy: the enemy is knocked out and
    // counted once; each projectile is named once.
    let two_shots = vec![
        ScaledBody { id: 100, pos: Vec2i { x: 0, y: 0 }, scale: Vec2i { x: 500, y: 500 } },
        ScaledBody { id: 101, pos: Vec2i { x: 1_000, y: 0 }, scale: Vec2i { x: 500, y: 500 } },
    ];
    let one_enemy = vec![ScaledBody {
        id: 1,
        pos: Vec2i { x: 10_000, y: 0 },
        scale: Vec2i { x: 1000, y: 1000 },
    }];
    let mut game = Game { active_enemies: 1 };
    let despawns = player_projectiles_hits_enemies(&two_shots, &one_enemy, &mut game, &infos);
    assert_eq!(despawns, vec![1, 100, 101]);
    assert_eq!(game.active_enemies, 0);
}

#[test]
fn respawn_fills_up_to_two_enemies() {
    let win = WinSize::default();
    let mut game = Game { active_enemies: 0 };

    let first = enemy_spawn(&mut game, &win).unwrap();
    assert_eq!(game.active_enemies, 1);
    // At least 100 pixels inside every window edge.
    assert!(first.pos.x >= -200_000 && first.pos.x < 200_000);
    assert!(first.pos.y >= -200_000 && first.pos.y < 200_000);

    let second = enemy_spawn(&mut game, &win);
    assert!(second.is_some());
    assert_eq!(game.active_enemies, 2);

    assert!(enemy_spawn(&mut game, &win).is_none());
    assert_eq!(game.active_enemies, 2);
}
