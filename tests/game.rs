use raycaster::camera::Camera;
use raycaster::fixed::UNIT;
use raycaster::levels::{apply_action, first, metro, rat_race, spyral, trapped, LevelAction};
use raycaster::movement::{move_player, Move};
use raycaster::rules::{best_player, check_gold_coins, collect_coins, random_position, settle_round, Announcement, Player};

fn box_grid(n: usize) -> Vec<Vec<u8>> {
    (0..n).map(|x| (0..n).map(|y| if x == 0 || y == 0 || x == n - 1 || y == n - 1 { 1 } else { 0 }).collect()).collect()
}

fn east(x: i64, y: i64) -> Camera {
    Camera { pos_x: x, pos_y: y, dir_x: UNIT, dir_y: 0, plane_x: 0, plane_y: 676 }
}

#[test]
fn forward_step_moves_a_tenth() {
    let g = box_grid(10);
    let mut c = east(5 * UNIT, 5 * UNIT);
    assert_eq!(move_player(&g, &mut c, Move::Forward), 102);
    assert_eq!((c.pos_x, c.pos_y), (5 * UNIT + 102, 5 * UNIT));
    assert_eq!(move_player(&g, &mut c, Move::Backward), -102);
    assert_eq!((c.pos_x, c.pos_y), (5 * UNIT, 5 * UNIT));
}

#[test]
fn walls_block_steps() {
    let g = box_grid(10);
    let mut c = Camera { dir_x: -UNIT, ..east(UNIT + 50, 5 * UNIT) };
    move_player(&g, &mut c, Move::Forward);
    assert_eq!((c.pos_x, c.pos_y), (UNIT + 50, 5 * UNIT));
}

#[test]
fn strafing_moves_sideways() {
    let g = box_grid(10);
    let mut c = east(5 * UNIT, 5 * UNIT);
    assert_eq!(move_player(&g, &mut c, Move::StrafeLeft), -102);
    assert_eq!((c.pos_x, c.pos_y), (5 * UNIT, 5 * UNIT + 102));
    move_player(&g, &mut c, Move::StrafeRight);
    assert_eq!((c.pos_x, c.pos_y), (5 * UNIT, 5 * UNIT));
}

#[test]
fn turning_rotates_direction_and_plane() {
    let g = box_grid(10);
    let mut c = east(5 * UNIT, 5 * UNIT);
    assert_eq!(move_player(&g, &mut c, Move::TurnLeft), 0);
    assert_eq!((c.dir_x, c.dir_y, c.plane_x, c.plane_y), (1019, 102, -68, 672));
    let mut d = east(5 * UNIT, 5 * UNIT);
    move_player(&g, &mut d, Move::TurnRight);
    assert_eq!((d.dir_x, d.dir_y, d.plane_x, d.plane_y), (1019, -102, 67, 672));
    assert_eq!((d.pos_x, d.pos_y), (5 * UNIT, 5 * UNIT));
}

#[test]
fn coin_lands_on_only_free_cell() {
    let mut g = vec![vec![1u8; 24]; 24];
    g[5][7] = 0;
    for _ in 0..20 {
        assert_eq!(random_position(&g), Some((5 * UNIT + UNIT / 2, 7 * UNIT + UNIT / 2)));
    }
    g[5][7] = 1;
    assert_eq!(random_position(&g), None);
}

#[test]
fn random_positions_are_free_cells_of_spawn_square() {
    let level = metro();
    for _ in 0..200 {
        let (x, y) = random_position(&level.world_map).unwrap();
        let (cx, cy) = ((x / UNIT) as usize, (y / UNIT) as usize);
        assert!(cx < 23 && cy < 23);
        assert_eq!(level.world_map[cx][cy], 0);
        assert_eq!((x % UNIT, y % UNIT), (UNIT / 2, UNIT / 2));
    }
}

fn player(id: u64, cx: i64, cy: i64, points: u32) -> Player {
    Player { id, x: cx * UNIT + 300, y: cy * UNIT + 700, points }
}

#[test]
fn collecting_moves_coin_and_scores() {
    let mut players = vec![player(1, 3, 3, 0), player(2, 5, 6, 4)];
    let mut coins = vec![(5 * UNIT + 10, 6 * UNIT + 1000), (9 * UNIT, 9 * UNIT)];
    let fresh = vec![Some((2 * UNIT, 2 * UNIT)), None, None, None];
    let who = collect_coins(&mut players, &mut coins, &fresh);
    assert_eq!(who, Some(1));
    assert_eq!(coins, vec![(2 * UNIT, 2 * UNIT), (9 * UNIT, 9 * UNIT)]);
    assert_eq!(players[1].points, 5);
    assert_eq!(players[0].points, 0);
}

#[test]
fn nobody_on_a_coin() {
    let mut players = vec![player(1, 3, 3, 0)];
    let mut coins = vec![(9 * UNIT, 9 * UNIT)];
    assert_eq!(collect_coins(&mut players, &mut coins, &vec![None]), None);
    assert_eq!(settle_round(1, &mut players, None), (1, Announcement::Nothing));
}

#[test]
fn best_player_last_on_tie() {
    let players = vec![player(1, 1, 1, 2), player(2, 1, 1, 3), player(3, 1, 1, 3), player(4, 1, 1, 1)];
    assert_eq!(best_player(&players), 2);
}

#[test]
fn third_coin_names_winner_and_clears_points() {
    let mut players = vec![player(7, 1, 1, 2), player(8, 1, 1, 1)];
    let r = settle_round(2, &mut players, Some(1));
    assert_eq!(r, (0, Announcement::Winner(7)));
    assert!(players.iter().all(|p| p.points == 0));
    let mut players = vec![player(7, 1, 1, 2), player(8, 1, 1, 1)];
    assert_eq!(settle_round(0, &mut players, Some(1)), (1, Announcement::Coin(1, 8)));
    assert_eq!(players[0].points, 2);
}

#[test]
fn gold_coin_check_on_metro() {
    let level = metro();
    let mut players = vec![player(11, 2, 2, 0), player(12, 8, 8, 0)];
    let mut coins = vec![(8 * UNIT + UNIT / 2, 8 * UNIT + UNIT / 2)];
    let (found, ann) = check_gold_coins(0, &level.world_map, &mut coins, &mut players);
    assert_eq!((found, ann), (1, Announcement::Coin(1, 12)));
    assert_eq!(players[1].points, 1);
    let (cx, cy) = ((coins[0].0 / UNIT) as usize, (coins[0].1 / UNIT) as usize);
    assert_eq!(level.world_map[cx][cy], 0);
}

#[test]
fn metro_level_shape() {
    let level = metro();
    assert_eq!(level.world_map.len(), 24);
    assert!(level.world_map.iter().all(|r| r.len() == 24));
    assert_eq!(level.world_layer.len(), 24);
    assert_eq!(level.portals.len(), 2);
    assert_eq!(level.sprites.len(), 6);
    assert_eq!((level.floor_texture, level.ceiling_texture), (3, 6));
    assert_eq!(level.url, "metro/metro.zip");
}

#[test]
fn lever_toggles_door() {
    let mut level = metro();
    assert_eq!(level.world_map[22][4], 4);
    apply_action(&mut level, 21 * UNIT + 100, 3 * UNIT + 900);
    assert_eq!(level.world_map[22][4], 0);
    assert_eq!(level.world_layer[22][3], 21);
    apply_action(&mut level, 21 * UNIT + 100, 3 * UNIT + 900);
    assert_eq!(level.world_map[22][4], 4);
    assert_eq!(level.world_layer[22][3], 20);
    apply_action(&mut level, 5 * UNIT, 5 * UNIT);
    assert_eq!(level.world_map[22][4], 4);
}

fn closed(g: &Vec<Vec<u8>>) -> bool {
    g.len() == 24
        && g.iter().all(|r| r.len() == 24 && r[0] > 0 && r[23] > 0)
        && g[0].iter().all(|&c| c > 0)
        && g[23].iter().all(|&c| c > 0)
}

#[test]
fn metro_level_data() {
    let level = metro();
    assert!(closed(&level.world_map));
    assert_eq!(level.portals[0], raycaster::portal::Portal { x: 1536, y: 1536, texture: 0, dest_x: 20992, dest_y: 20582 });
    assert_eq!(level.portals[1].dest_x, 1536);
    assert_eq!(level.world_map[1][1], 0);
    assert_eq!(level.world_map[20][20], 0);
    assert_eq!(level.sprites[4], raycaster::sprites::Sprite { x: 18261, y: 21205, texture: 14 });
}

#[test]
fn other_levels() {
    for (level, n_sprites, n_portals) in [(first(), 19, 2), (rat_race(), 18, 0), (spyral(), 26, 2), (trapped(), 19, 2)] {
        assert!(closed(&level.world_map));
        assert_eq!(level.world_layer.len(), 24);
        assert_eq!(level.sprites.len(), n_sprites);
        assert_eq!(level.portals.len(), n_portals);
        assert_eq!(level.action, LevelAction::Nothing);
        assert!(level.url.ends_with("wolfenstein_textures.zip"));
    }
    assert_eq!(first().portals[0].dest_x, 10 * UNIT);
    assert_eq!(spyral().portals[1].dest_y, 10342);
}
