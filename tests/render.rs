use raycaster::camera::Camera;
use raycaster::fixed::UNIT;
use raycaster::floor::render_floor_ceiling;
use raycaster::frame::{render, Scene, SpriteGroup};
use raycaster::grid::{validate_grid, GridError};
use raycaster::screen::Atlas;
use raycaster::sprites::{depth_order, render_sprites, Blend, Sprite};
use raycaster::walls::{cast_column, render_walls};

fn solid_atlas(colors: &[(u8, u8, u8)], size: usize) -> Atlas {
    let mut textures = Vec::new();
    for &(r, g, b) in colors {
        let mut t = Vec::new();
        for _ in 0..size * size {
            t.push(r);
            t.push(g);
            t.push(b);
        }
        textures.push(t);
    }
    Atlas { textures, width: size, height: size, bytes_per_pixel: 3 }
}

fn walled_box(rows: usize, cols: usize) -> Vec<Vec<u8>> {
    let mut g = Vec::new();
    for x in 0..rows {
        let mut row = Vec::new();
        for y in 0..cols {
            row.push(if x == 0 || y == 0 || x == rows - 1 || y == cols - 1 { 1 } else { 0 });
        }
        g.push(row);
    }
    g
}

fn cam(px: f64, py: f64, dx: f64, dy: f64, plx: f64, ply: f64) -> Camera {
    let f = |v: f64| (v * UNIT as f64).round() as i64;
    Camera { pos_x: f(px), pos_y: f(py), dir_x: f(dx), dir_y: f(dy), plane_x: f(plx), plane_y: f(ply) }
}

#[test]
fn three_by_three_box_center_column() {
    let g = walled_box(3, 3);
    let atlas = solid_atlas(&[(10, 20, 30)], 64);
    let c = cam(1.5, 1.5, -1.0, 0.0, 0.0, 0.66);
    let mut color = vec![0u32; 64];
    let mut depth = vec![0i64; 8];
    render_walls(&atlas, &g, &mut color, &mut depth, 8, 8, &c, 0);
    // half a cell, in fixed point
    assert_eq!(depth[4], 512);
    for x in 0..8 {
        let hit = cast_column(&g, &c, 8, x, 0).expect("every ray hits the border");
        assert!(hit.map_x >= 0 && hit.map_x < 3 && hit.map_y >= 0 && hit.map_y < 3);
        assert_eq!(depth[x], 512);
    }
    // the walls fill the whole column at this distance
    assert_eq!(color[4 * 8 + 4], 10 + 20 * 256 + 30 * 65536);
}

#[test]
fn walled_box_distances_match_geometry() {
    let g = walled_box(10, 12);
    let atlas = solid_atlas(&[(1, 1, 1)], 16);
    let c = cam(4.25, 6.75, 0.6, 0.8, -0.528, 0.396);
    let (w, h) = (64usize, 48usize);
    let mut color = vec![0u32; w * h];
    let mut depth = vec![0i64; w];
    render_walls(&atlas, &g, &mut color, &mut depth, w, h, &c, 0);
    let u = UNIT as f64;
    for x in 0..w {
        let k = (2 * x as i64 - w as i64) as f64 / w as f64;
        let rx = c.dir_x as f64 / u + c.plane_x as f64 / u * k;
        let ry = c.dir_y as f64 / u + c.plane_y as f64 / u * k;
        let px = c.pos_x as f64 / u;
        let py = c.pos_y as f64 / u;
        let tx = if rx < 0.0 { (1.0 - px) / rx } else if rx > 0.0 { (9.0 - px) / rx } else { f64::INFINITY };
        let ty = if ry < 0.0 { (1.0 - py) / ry } else if ry > 0.0 { (11.0 - py) / ry } else { f64::INFINITY };
        let expected = tx.min(ty) * u;
        assert!((depth[x] as f64 - expected).abs() <= 1.0, "column {}: {} vs {}", x, depth[x], expected);
    }
}

#[test]
fn ray_leaving_grid_leaves_column() {
    // an open grid: one row of empty cells
    let g = vec![vec![0u8; 4]; 4];
    let atlas = solid_atlas(&[(9, 9, 9)], 8);
    let c = cam(2.5, 2.5, 1.0, 0.0, 0.0, 0.66);
    let mut color = vec![7u32; 16];
    let mut depth = vec![-3i64; 4];
    render_walls(&atlas, &g, &mut color, &mut depth, 4, 4, &c, 0);
    assert_eq!(depth, vec![-3; 4]);
    assert_eq!(color, vec![7; 16]);
}

#[test]
fn start_distance_skips_near_walls() {
    let mut g = walled_box(12, 12);
    for y in 1..11 {
        g[3][y] = 1;
    }
    let c = cam(1.5, 5.5, 1.0, 0.0, 0.0, 0.66);
    // the centre ray runs along the x axis and meets the near wall 1.5 cells away
    let near = cast_column(&g, &c, 8, 4, 1434).unwrap();
    assert_eq!((near.map_x, near.map_y), (3, 5));
    let far = cast_column(&g, &c, 8, 4, 1638).unwrap();
    assert_eq!((far.map_x, far.map_y), (11, 5));
    let slanted = cast_column(&g, &c, 8, 6, 0).unwrap();
    assert_eq!((slanted.map_x, slanted.map_y), (3, 5));
    let slanted_far = cast_column(&g, &c, 8, 6, 6 * UNIT).unwrap();
    assert_eq!((slanted_far.map_x, slanted_far.map_y), (11, 8));
}

#[test]
fn floor_texture_repeats_every_cell() {
    let mut tex = Vec::new();
    for i in 0..16 * 16 {
        tex.push((i % 251) as u8);
        tex.push((i / 3 % 251) as u8);
        tex.push((i * 7 % 251) as u8);
    }
    let atlas = Atlas { textures: vec![tex.clone(), tex], width: 16, height: 16, bytes_per_pixel: 3 };
    let a = cam(5.25, 5.5, -1.0, 0.0, 0.0, 0.66);
    let b = cam(7.25, 4.5, -1.0, 0.0, 0.0, 0.66);
    let mut ca = vec![0u32; 32 * 24];
    let mut cb = vec![1u32; 32 * 24];
    render_floor_ceiling(&atlas, 0, 1, &mut ca, 32, 24, &a);
    render_floor_ceiling(&atlas, 0, 1, &mut cb, 32, 24, &b);
    assert_eq!(ca, cb);
}

#[test]
fn floor_is_darkened_texture() {
    let atlas = solid_atlas(&[(200, 100, 51), (3, 5, 7)], 8);
    let c = cam(3.5, 3.5, 1.0, 0.0, 0.0, 0.66);
    let mut color = vec![0u32; 10 * 10];
    render_floor_ceiling(&atlas, 0, 1, &mut color, 10, 10, &c);
    // bottom row: floor, top row: ceiling, each channel halved
    assert_eq!(color[9 * 10 + 3], 100 + 50 * 256 + 25 * 65536);
    assert_eq!(color[3], 1 + 2 * 256 + 3 * 65536);
}

fn sprite_scene() -> (Atlas, Camera) {
    (solid_atlas(&[(255, 0, 0), (0, 255, 0)], 16), cam(10.5, 10.5, 1.0, 0.0, 0.0, 0.66))
}

#[test]
fn nearer_sprite_texel_visible() {
    let (atlas, c) = sprite_scene();
    let near = Sprite { x: 15 * UNIT + UNIT / 2, y: 10 * UNIT + UNIT / 2, texture: 0 };
    let far = Sprite { x: 20 * UNIT + UNIT / 2, y: 10 * UNIT + UNIT / 2, texture: 1 };
    for list in [vec![near, far], vec![far, near]] {
        let mut color = vec![0u32; 64 * 64];
        let depth = vec![20 * UNIT; 64];
        let cov = render_sprites(&atlas, Blend::Opaque, &list, &mut color, &depth, 64, 64, &c, 0);
        assert!(cov.drawn);
        assert!(!cov.border);
        assert_eq!(color[32 * 64 + 32], 255);
    }
}

#[test]
fn sprite_behind_wall_not_drawn() {
    let (atlas, c) = sprite_scene();
    let s = Sprite { x: 20 * UNIT + UNIT / 2, y: 10 * UNIT + UNIT / 2, texture: 0 };
    let mut color = vec![5u32; 64 * 64];
    let depth = vec![5 * UNIT; 64];
    let cov = render_sprites(&atlas, Blend::Opaque, &vec![s], &mut color, &depth, 64, 64, &c, 0);
    assert!(!cov.drawn);
    assert_eq!(color, vec![5u32; 64 * 64]);
}

#[test]
fn sprite_behind_camera_not_drawn() {
    let (atlas, c) = sprite_scene();
    let s = Sprite { x: 5 * UNIT, y: 10 * UNIT + UNIT / 2, texture: 0 };
    let mut color = vec![5u32; 64 * 64];
    let depth = vec![50 * UNIT; 64];
    let cov = render_sprites(&atlas, Blend::Opaque, &vec![s], &mut color, &depth, 64, 64, &c, 0);
    assert!(!cov.drawn);
    assert_eq!(color, vec![5u32; 64 * 64]);
}

#[test]
fn compositing_twice_gives_same_frame() {
    let (atlas, c) = sprite_scene();
    let list = vec![
        Sprite { x: 14 * UNIT, y: 11 * UNIT, texture: 0 },
        Sprite { x: 17 * UNIT, y: 9 * UNIT, texture: 1 },
    ];
    let depth = vec![9 * UNIT; 64];
    let mut a = vec![0u32; 64 * 64];
    let mut b = vec![0u32; 64 * 64];
    render_sprites(&atlas, Blend::Opaque, &list, &mut a, &depth, 64, 64, &c, 3);
    render_sprites(&atlas, Blend::Opaque, &list, &mut b, &depth, 64, 64, &c, 3);
    assert_eq!(a, b);
    assert!(a.iter().any(|&p| p != 0));
}

#[test]
fn transparent_texels_keep_background() {
    let atlas = solid_atlas(&[(0, 0, 0)], 16);
    let c = cam(10.5, 10.5, 1.0, 0.0, 0.0, 0.66);
    let s = Sprite { x: 15 * UNIT, y: 10 * UNIT + UNIT / 2, texture: 0 };
    let mut color = vec![77u32; 32 * 32];
    let depth = vec![20 * UNIT; 32];
    let cov = render_sprites(&atlas, Blend::Opaque, &vec![s], &mut color, &depth, 32, 32, &c, 0);
    assert!(cov.drawn);
    assert_eq!(color, vec![77u32; 32 * 32]);
}

#[test]
fn alpha_mask_blends_per_channel() {
    let mut t = Vec::new();
    for _ in 0..16 * 16 {
        t.extend_from_slice(&[0x12, 0x34, 0x56, 0xff]);
    }
    let mut t2 = Vec::new();
    for _ in 0..16 * 16 {
        t2.extend_from_slice(&[0x12, 0x34, 0x56, 0x00]);
    }
    let atlas = Atlas { textures: vec![t, t2], width: 16, height: 16, bytes_per_pixel: 4 };
    let c = cam(10.5, 10.5, 1.0, 0.0, 0.0, 0.66);
    let depth = vec![20 * UNIT; 32];
    let mut color = vec![0x00abcdefu32; 32 * 32];
    render_sprites(&atlas, Blend::AlphaMasked, &vec![Sprite { x: 15 * UNIT, y: 10 * UNIT + UNIT / 2, texture: 0 }], &mut color, &depth, 32, 32, &c, 0);
    assert_eq!(color[16 * 32 + 16], 0x563412);
    let mut color = vec![0x00abcdefu32; 32 * 32];
    render_sprites(&atlas, Blend::AlphaMasked, &vec![Sprite { x: 15 * UNIT, y: 10 * UNIT + UNIT / 2, texture: 1 }], &mut color, &depth, 32, 32, &c, 0);
    assert_eq!(color[16 * 32 + 16], 0xabcdef);
}

#[test]
fn depth_order_far_first_ties_in_list_order() {
    let c = cam(10.5, 10.5, 1.0, 0.0, 0.0, 0.66);
    let list = vec![
        Sprite { x: 12 * UNIT, y: 10 * UNIT + UNIT / 2, texture: 0 },
        Sprite { x: 18 * UNIT, y: 10 * UNIT + UNIT / 2, texture: 0 },
        Sprite { x: 9 * UNIT, y: 10 * UNIT + UNIT / 2, texture: 0 },
        Sprite { x: 10 * UNIT + UNIT / 2, y: 12 * UNIT, texture: 0 },
    ];
    assert_eq!(depth_order(&c, &list), vec![1, 0, 2, 3]);
}

#[test]
fn validate_grid_errors() {
    assert_eq!(validate_grid(&walled_box(4, 4), 1), Ok(()));
    let mut g = walled_box(4, 4);
    g[2][3] = 5;
    assert_eq!(validate_grid(&g, 4), Err(GridError::UnknownMaterial(2, 3)));
    assert_eq!(validate_grid(&vec![vec![0u8; 3]; 300], 4), Err(GridError::TooLarge));
    assert_eq!(validate_grid(&vec![vec![0u8; 300]; 3], 4), Err(GridError::TooLarge));
}

#[test]
fn full_frame_draws_walls_floor_and_sprites() {
    let g = walled_box(8, 8);
    let textures = solid_atlas(&[(1, 2, 3), (4, 5, 6), (7, 8, 9)], 8);
    let props = SpriteGroup {
        sprites: vec![Sprite { x: 4 * UNIT + UNIT / 2, y: 4 * UNIT, texture: 1 }],
        atlas: solid_atlas(&[(0, 0, 0), (40, 50, 60)], 8),
        mode: Blend::Opaque,
    };
    let scene = Scene { grid: g, textures, floor_texture: 1, ceiling_texture: 2, groups: vec![props] };
    let c = cam(1.5, 4.0, 1.0, 0.0, 0.0, 0.66);
    let (w, h) = (40usize, 30usize);
    let mut color = vec![0u32; w * h];
    let mut depth = vec![0i64; w];
    render(&scene, &mut color, &mut depth, w, h, &c, 0, 0);
    assert_eq!(depth[20], 5 * UNIT + UNIT / 2);
    assert_eq!(color[15 * w + 20], 40 + 50 * 256 + 60 * 65536);
    assert_eq!(color[(h - 1) * w], 2 + 2 * 256 + 3 * 65536);
    assert_eq!(color[0], 3 + 4 * 256 + 4 * 65536);
}
