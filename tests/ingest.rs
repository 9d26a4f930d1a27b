use raycaster::camera::Camera;
use raycaster::fixed::UNIT;
use raycaster::frame::{Scene, SpriteGroup};
use raycaster::portal::{check_portals, Portal, PortalView};
use raycaster::screen::{overlay, Atlas};
use raycaster::sprites::{animate, check_group, Blend, Sprite};
use raycaster::textures::texture_slot;

#[test]
fn texture_slots_from_entry_names() {
    assert_eq!(texture_slot("pics/0.png"), Some(0));
    assert_eq!(texture_slot("pics/12.png"), Some(12));
    assert_eq!(texture_slot("pics/123456789.png"), Some(123456789));
    assert_eq!(texture_slot("pics/"), None);
    assert_eq!(texture_slot("pics/.png"), None);
    assert_eq!(texture_slot("pics/1a.png"), None);
    assert_eq!(texture_slot("pics/12.jpg"), None);
    assert_eq!(texture_slot("img/12.png"), None);
    assert_eq!(texture_slot("pics/1234567890.png"), None);
}

#[test]
fn animation_wraps_around() {
    let mut s = vec![Sprite { x: 1, y: 2, texture: 0 }, Sprite { x: 3, y: 4, texture: 5 }, Sprite { x: 5, y: 6, texture: 9 }];
    animate(&mut s, 6);
    assert_eq!(s.iter().map(|s| s.texture).collect::<Vec<_>>(), vec![1, 0, 0]);
    assert_eq!((s[1].x, s[1].y), (3, 4));
}

#[test]
fn camera_check() {
    let ok = Camera { pos_x: 5 * UNIT, pos_y: 5 * UNIT, dir_x: -UNIT, dir_y: 0, plane_x: 0, plane_y: 676 };
    assert!(ok.check());
    assert!(!Camera { plane_y: 0, ..ok }.check());
    assert!(!Camera { dir_x: -3 * UNIT, ..ok }.check());
    // a camera may stand up to eight cells outside the grid's square
    assert!(Camera { pos_x: -8 * UNIT, ..ok }.check());
    assert!(!Camera { pos_x: -8 * UNIT - 1, ..ok }.check());
    assert!(Camera { pos_y: 264 * UNIT - 1, ..ok }.check());
    assert!(!Camera { pos_y: 264 * UNIT, ..ok }.check());
}

fn rgb(n: usize, size: usize) -> Atlas {
    Atlas { textures: vec![vec![1; size * size * 3]; n], width: size, height: size, bytes_per_pixel: 3 }
}

#[test]
fn group_check_rejects_bad_sprites() {
    let a = rgb(2, 8);
    let good = vec![Sprite { x: UNIT, y: UNIT, texture: 1 }];
    assert!(check_group(&a, Blend::Opaque, &good, 16, 16));
    assert!(!check_group(&a, Blend::AlphaMasked, &good, 16, 16));
    assert!(!check_group(&a, Blend::Opaque, &vec![Sprite { texture: 2, ..good[0] }], 16, 16));
    assert!(!check_group(&a, Blend::Opaque, &vec![Sprite { x: -1, ..good[0] }], 16, 16));
    let short = Atlas { textures: vec![vec![1; 10]], ..rgb(1, 8) };
    assert!(!check_group(&short, Blend::Opaque, &vec![], 16, 16));
}

#[test]
fn scene_check() {
    let grid = vec![vec![1u8, 1, 1], vec![1, 0, 2], vec![1, 1, 1]];
    let scene = Scene {
        grid: grid.clone(),
        textures: rgb(2, 8),
        floor_texture: 0,
        ceiling_texture: 1,
        groups: vec![SpriteGroup { sprites: vec![], atlas: rgb(1, 8), mode: Blend::Opaque }],
    };
    assert!(scene.check(16, 16));
    let bad_floor = Scene { floor_texture: 2, grid: grid.clone(), textures: rgb(2, 8), ceiling_texture: 1, groups: vec![] };
    assert!(!bad_floor.check(16, 16));
    let bad_grid = Scene { grid: vec![vec![3u8]], textures: rgb(2, 8), floor_texture: 0, ceiling_texture: 1, groups: vec![] };
    assert!(!bad_grid.check(16, 16));
}

#[test]
fn portal_check() {
    let view = PortalView {
        color: vec![0; 16 * 12],
        depth: vec![0; 16],
        textures: Atlas { textures: vec![vec![0; 16 * 12 * 4]], width: 16, height: 12, bytes_per_pixel: 4 },
    };
    let p = Portal { x: UNIT, y: UNIT, texture: 0, dest_x: 2 * UNIT, dest_y: 2 * UNIT };
    assert!(check_portals(&vec![p], &view, 16, 12));
    assert!(!check_portals(&vec![Portal { texture: 1, ..p }], &view, 16, 12));
    assert!(!check_portals(&vec![p], &view, 16, 13));
    assert!(!check_portals(&vec![Portal { dest_x: -5, ..p }], &view, 16, 12));
}

#[test]
fn overlay_ors_into_corner() {
    let mut color = vec![0x10u32; 4 * 3];
    overlay(&mut color, 4, 3, &vec![1, 2, 3, 4], 2, 2);
    assert_eq!(color, vec![0x11, 0x12, 0x10, 0x10, 0x13, 0x14, 0x10, 0x10, 0x10, 0x10, 0x10, 0x10]);
}
