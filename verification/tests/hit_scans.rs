use space_invaders::geometry::Vec2i;
use space_invaders::shared::attributes::Health;
use space_invaders::shared::weapons::{
    manage_player_projectiles_hit, manage_projectiles_hit_obstacles, EnemyBody, ObstacleBody,
    ProjectileBody,
};
use space_invaders::Game;

fn at(x: i64, y: i64) -> Vec2i {
    Vec2i { x, y }
}

fn size(w: i64, h: i64) -> Vec2i {
    Vec2i { x: w, y: h }
}

#[test]
fn player_projectile_knocks_out_enemy_and_counts_it() {
    let projectiles = vec![ProjectileBody {
        id: 100,
        damage: 1,
        pos: at(0, 0),
        size: size(10_000, 10_000),
    }];
    let mut enemies = vec![
        EnemyBody { id: 1, hp: Health::from(1), pos: at(5_000, 0), size: size(10_000, 10_000) },
        EnemyBody { id: 2, hp: Health::from(1), pos: at(200_000, 0), size: size(10_000, 10_000) },
    ];
    let mut game = Game { active_enemies: 2 };

    let despawns = manage_player_projectiles_hit(&projectiles, &mut enemies, &mut game);

    // The shot overlaps only the first enemy: both are ordered despawned
    // and the running count falls by one.
    assert_eq!(despawns, vec![100, 1]);
    assert_eq!(enemies[0].hp.current_hp, 0);
    assert_eq!(enemies[1].hp.current_hp, 1);
    assert_eq!(game.active_enemies, 1);
}

#[test]
fn player_projectile_is_spent_on_its_first_hit() {
    // One shot overlapping two enemies at once: it is spent, and named,
    // on the first; the second takes no damage.
    let projectiles = vec![ProjectileBody {
        id: 100,
        damage: 1,
        pos: at(0, 0),
        size: size(10_000, 10_000),
    }];
    let mut enemies = vec![
        EnemyBody { id: 1, hp: Health::from(1), pos: at(5_000, 0), size: size(10_000, 10_000) },
        EnemyBody { id: 2, hp: Health::from(1), pos: at(-5_000, 0), size: size(10_000, 10_000) },
    ];
    let mut game = Game { active_enemies: 2 };

    let despawns = manage_player_projectiles_hit(&projectiles, &mut enemies, &mut game);

    assert_eq!(despawns, vec![100, 1]);
    assert_eq!(enemies[0].hp.current_hp, 0);
    assert_eq!(enemies[1].hp.current_hp, 1);
    assert_eq!(game.active_enemies, 1);
}

#[test]
fn enemy_already_at_zero_is_not_counted_off_again() {
    let projectiles = vec![ProjectileBody {
        id: 100,
        damage: 1,
        pos: at(0, 0),
        size: size(10_000, 10_000),
    }];
    let mut enemies = vec![EnemyBody {
        id: 1,
        hp: Health { original_hp: 1, current_hp: 0 },
        pos: at(5_000, 0),
        size: size(10_000, 10_000),
    }];
    let mut game = Game { active_enemies: 0 };

    let despawns = manage_player_projectiles_hit(&projectiles, &mut enemies, &mut game);

    // The shot is spent, but an enemy that was not alive before the blow
    // is neither despawned again nor counted off the tally.
    assert_eq!(despawns, vec![100]);
    assert_eq!(game.active_enemies, 0);
}

#[test]
fn player_projectile_missing_everything_changes_nothing() {
    let projectiles = vec![ProjectileBody {
        id: 100,
        damage: 1,
        pos: at(0, 0),
        size: size(10_000, 10_000),
    }];
    let mut enemies = vec![EnemyBody {
        id: 1,
        hp: Health::from(1),
        pos: at(300_000, 300_000),
        size: size(10_000, 10_000),
    }];
    let mut game = Game { active_enemies: 1 };

    let despawns = manage_player_projectiles_hit(&projectiles, &mut enemies, &mut game);

    assert!(despawns.is_empty());
    assert_eq!(enemies[0].hp.current_hp, 1);
    assert_eq!(game.active_enemies, 1);
}

#[test]
fn obstacle_scan_spends_projectile_once() {
    // One projectile overlapping two blocks at once: it is despawned only
    // once, but both blocks take its damage.
    let mut obstacles = vec![
        ObstacleBody {
            id: 10,
            hp: Health::from(1),
            pos: at(-3_000, 0),
            size: Some(size(6_000, 6_000)),
        },
        ObstacleBody {
            id: 11,
            hp: Health::from(2),
            pos: at(3_000, 0),
            size: Some(size(6_000, 6_000)),
        },
    ];
    let projectiles = vec![ProjectileBody {
        id: 100,
        damage: 1,
        pos: at(0, 0),
        size: size(9_000, 9_000),
    }];

    let despawns = manage_projectiles_hit_obstacles(&mut obstacles, &projectiles);

    assert_eq!(despawns, vec![100, 10]);
    assert_eq!(obstacles[0].hp.current_hp, 0);
    assert_eq!(obstacles[1].hp.current_hp, 1);
}

#[test]
fn obstacle_without_sprite_size_is_ignored() {
    let mut obstacles = vec![ObstacleBody {
        id: 10,
        hp: Health::from(1),
        pos: at(0, 0),
        size: None,
    }];
    let projectiles = vec![ProjectileBody {
        id: 100,
        damage: 1,
        pos: at(0, 0),
        size: size(9_000, 9_000),
    }];

    let despawns = manage_projectiles_hit_obstacles(&mut obstacles, &projectiles);

    assert!(despawns.is_empty());
    assert_eq!(obstacles[0].hp.current_hp, 1);
}
