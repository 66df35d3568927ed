use space_invaders::entities::enemy::{
    alien_random_shoot, manage_alien_horizontal_movement, manage_alien_movement_direction,
    manage_alien_vertical_movement, setup_enemies, AlienFormationState, AlienShooter, AlienSprite,
    AlienTransform, AlienType,
};
use space_invaders::entities::obstacles::{create_obstacle, setup_obstacles, BlockBundle};
use space_invaders::geometry::Vec2i;
use space_invaders::shared::weapons::WeaponState;
use space_invaders::{AssetScaling, SpriteInfo, SpriteInfos, WinSize};

fn sprite(w: i64, h: i64) -> SpriteInfo {
    SpriteInfo { size: Vec2i { x: w, y: h } }
}

fn sprites() -> SpriteInfos {
    SpriteInfos {
        player: sprite(98_000, 75_000),
        player_laser: sprite(9_000, 54_000),
        red_enemy: sprite(93_000, 84_000),
        green_enemy: sprite(92_000, 84_000),
        yellow_enemy: sprite(91_000, 84_000),
        alien_laser: sprite(9_000, 37_000),
        top_alien: sprite(93_000, 84_000),
    }
}

#[test]
fn formation_has_48_aliens_in_a_grid() {
    let spawns = setup_enemies(&sprites());
    assert_eq!(spawns.len(), 48);

    // Bottom-left corner: first column of the bottom (red) row.
    assert_eq!(spawns[0].pos, Vec2i { x: -210_000, y: -50_000 });
    assert_eq!(spawns[0].alien_type, AlienType::Red);
    assert_eq!(spawns[0].ship.hp.current_hp, 1);
    assert_eq!(spawns[0].ship.weapon.cooldown, 200);

    // Top-right corner: last column of the top (yellow) row.
    assert_eq!(spawns[47].pos, Vec2i { x: 210_000, y: 190_000 });
    assert_eq!(spawns[47].alien_type, AlienType::Yellow);

    // The middle rows are green, the bottom three red.
    assert_eq!(spawns[23].alien_type, AlienType::Red);
    assert_eq!(spawns[24].alien_type, AlienType::Green);
    assert_eq!(spawns[39].alien_type, AlienType::Green);
    assert_eq!(spawns[40].alien_type, AlienType::Yellow);

    // Sprite sizes follow the type.
    assert_eq!(spawns[0].asset_info.size.x, 93_000);
    assert_eq!(spawns[47].asset_info.size.x, 91_000);
}

#[test]
fn formation_state_starts_moving_left() {
    let s = AlienFormationState::default();
    assert_eq!(s.movement_direction, -1);
    assert_eq!(s.movement_speed.value, 30_000);
    assert!(!s.move_down);
    assert_eq!(s.available_to_shoot, 2);
}

#[test]
fn horizontal_sweep_steps_half_a_pixel() {
    let state = AlienFormationState::default();
    let mut positions = vec![Vec2i { x: 0, y: 0 }, Vec2i { x: 60_000, y: -50_000 }];
    manage_alien_horizontal_movement(&mut positions, &state);
    // 30 pixels per second at 60 ticks per second, moving left.
    assert_eq!(positions[0], Vec2i { x: -500, y: 0 });
    assert_eq!(positions[1], Vec2i { x: 59_500, y: -50_000 });
}

#[test]
fn descent_drops_ten_pixels_and_despawns_below_window() {
    let mut state = AlienFormationState { move_down: true, ..AlienFormationState::default() };
    let win = WinSize::default();
    let mut units = vec![
        AlienTransform { id: 1, pos: Vec2i { x: 0, y: 0 } },
        AlienTransform { id: 2, pos: Vec2i { x: 0, y: -295_000 } },
    ];
    let despawns = manage_alien_vertical_movement(&mut units, &mut state, &win);
    assert_eq!(units[0].pos, Vec2i { x: 0, y: -10_000 });
    assert_eq!(units[1].pos, Vec2i { x: 0, y: -305_000 });
    // Only the alien now below half the window height leaves.
    assert_eq!(despawns, vec![2]);
    assert!(!state.move_down);

    // Without a pending step nothing moves.
    let mut still = vec![AlienTransform { id: 3, pos: Vec2i { x: 0, y: 0 } }];
    let none = manage_alien_vertical_movement(&mut still, &mut state, &win);
    assert!(none.is_empty());
    assert_eq!(still[0].pos, Vec2i { x: 0, y: 0 });
}

#[test]
fn edge_contact_turns_the_formation_around() {
    let mut state = AlienFormationState::default();
    let win = WinSize::default();
    let inside = AlienSprite { pos: Vec2i { x: 0, y: 0 }, size: Vec2i { x: 93_000, y: 84_000 } };
    let at_edge = AlienSprite {
        pos: Vec2i { x: -254_000, y: 0 },
        size: Vec2i { x: 93_000, y: 84_000 },
    };

    manage_alien_movement_direction(&vec![inside], &mut state, &win);
    assert_eq!(state.movement_direction, -1);
    assert!(!state.move_down);

    manage_alien_movement_direction(&vec![inside, at_edge], &mut state, &win);
    assert_eq!(state.movement_direction, 1);
    assert!(state.move_down);
}

#[test]
fn volley_takes_two_ready_aliens() {
    let state = AlienFormationState::default();
    let infos = sprites();
    let scaling = AssetScaling::default();
    let ready = WeaponState::fast_normal_weapon();
    let aliens: Vec<AlienShooter> = (0..5)
        .map(|i| AlienShooter { pos: Vec2i { x: i * 60_000, y: 100_000 }, weapon: ready })
        .collect();

    let shots = alien_random_shoot(&aliens, &state, &infos, &scaling);
    // Five ready aliens, two picks: exactly two shots, each flying down.
    assert_eq!(shots.len(), 2);
    for shot in &shots {
        assert_eq!(shot.velocity, Vec2i { x: 0, y: -700_000 });
        assert_eq!(shot.size, Vec2i { x: 4_500, y: 18_500 });
        assert!(!shot.from_player);
        assert_eq!(shot.projectile.damage, 1);
    }

    // With every weapon spent, the volley is empty.
    let mut spent = ready;
    spent.fired(1_000);
    let tired: Vec<AlienShooter> =
        (0..5).map(|i| AlienShooter { pos: Vec2i { x: i * 60_000, y: 0 }, weapon: spent }).collect();
    let none = alien_random_shoot(&tired, &state, &infos, &scaling);
    assert!(none.is_empty());
}

#[test]
fn bunkers_have_59_blocks_each() {
    let start = Vec2i { x: 0, y: 0 };
    let blocks = create_obstacle(start, 0);
    assert_eq!(blocks.len(), 59);
    // The bottom row has its doorway: columns 0, 1, 9, 10.
    assert_eq!(blocks[0].pos, Vec2i { x: 0, y: 0 });
    assert_eq!(blocks[1].pos, Vec2i { x: 6_000, y: 0 });
    assert_eq!(blocks[2].pos, Vec2i { x: 54_000, y: 0 });
    assert_eq!(blocks[3].pos, Vec2i { x: 60_000, y: 0 });
    // Every block is a six-pixel square with one hit point.
    for b in &blocks {
        assert_eq!(b.size, Vec2i { x: 6_000, y: 6_000 });
        assert_eq!(b.hp.current_hp, 1);
    }
    // The top row narrows to columns 2 through 8.
    let top: Vec<&BlockBundle> = blocks.iter().filter(|b| b.pos.y == 36_000).collect();
    assert_eq!(top.len(), 7);
    assert_eq!(top[0].pos.x, 12_000);
    assert_eq!(top[6].pos.x, 48_000);
}

#[test]
fn four_bunkers_line_the_bottom() {
    let win = WinSize::default();
    let blocks = setup_obstacles(&win);
    assert_eq!(blocks.len(), 4 * 59);
    // The first block of the first bunker: one fifteenth of the window in
    // from the left edge, 100 pixels up from the bottom.
    assert_eq!(blocks[0].pos, Vec2i { x: -260_000, y: -200_000 });
    // The first block of the second bunker sits a quarter window further right.
    assert_eq!(blocks[59].pos, Vec2i { x: -110_000, y: -200_000 });
}
