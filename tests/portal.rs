use raycaster::camera::Camera;
use raycaster::fixed::UNIT;
use raycaster::frame::Scene;
use raycaster::portal::{isqrt, portal_view, render_portal, render_portals, should_teleport, upload_view, Portal, PortalView};
use raycaster::screen::Atlas;
use raycaster::sprites::Coverage;

fn box_grid(n: usize) -> Vec<Vec<u8>> {
    (0..n).map(|x| (0..n).map(|y| if x == 0 || y == 0 || x == n - 1 || y == n - 1 { 1 } else { 0 }).collect()).collect()
}

fn plain_atlas(n: usize) -> Atlas {
    Atlas { textures: vec![vec![90u8; 8 * 8 * 3]; n], width: 8, height: 8, bytes_per_pixel: 3 }
}

fn looking_east(x: i64, y: i64) -> Camera {
    Camera { pos_x: x, pos_y: y, dir_x: UNIT, dir_y: 0, plane_x: 0, plane_y: 676 }
}

fn view_for(w: usize, h: usize, portals: usize) -> PortalView {
    PortalView {
        color: vec![0; w * h],
        depth: vec![0; w],
        textures: Atlas { textures: vec![vec![0u8; w * h * 4]; portals], width: w, height: h, bytes_per_pixel: 4 },
    }
}

fn scene() -> Scene {
    Scene { grid: box_grid(20), textures: plain_atlas(2), floor_texture: 0, ceiling_texture: 1, groups: vec![] }
}

#[test]
fn integer_square_roots() {
    assert_eq!(isqrt(0), 0);
    assert_eq!(isqrt(15), 3);
    assert_eq!(isqrt(16), 4);
    assert_eq!(isqrt(4194304), 2048);
    assert_eq!(isqrt(0xffff_ffff), 65535);
}

#[test]
fn active_portal_gives_displaced_view() {
    let c = looking_east(10 * UNIT + UNIT / 2, 10 * UNIT + UNIT / 2);
    let p = Portal { x: 12 * UNIT + UNIT / 2, y: 10 * UNIT + UNIT / 2, texture: 0, dest_x: 3 * UNIT + UNIT / 2, dest_y: 3 * UNIT + UNIT / 2 };
    let (v, d) = portal_view(&c, &p).expect("two cells away is active");
    assert_eq!((v.pos_x, v.pos_y), (UNIT + UNIT / 2, 3 * UNIT + UNIT / 2));
    assert_eq!((v.dir_x, v.dir_y, v.plane_x, v.plane_y), (c.dir_x, c.dir_y, c.plane_x, c.plane_y));
    assert_eq!(d, 2 * UNIT);
}

#[test]
fn distant_portal_is_dormant() {
    let c = looking_east(10 * UNIT, 10 * UNIT);
    let p = Portal { x: 17 * UNIT, y: 10 * UNIT, texture: 0, dest_x: 12 * UNIT, dest_y: 3 * UNIT };
    assert!(portal_view(&c, &p).is_none());
    let q = Portal { x: 16 * UNIT + UNIT / 2, ..p };
    assert!(portal_view(&c, &q).is_some());
}

#[test]
fn view_upload_is_rgba() {
    assert_eq!(upload_view(&vec![0x0011_2233, 0x00ff_0001]), vec![0x33, 0x22, 0x11, 255, 0x01, 0x00, 0xff, 255]);
}

#[test]
fn teleport_only_without_border() {
    assert!(should_teleport(Coverage { drawn: true, border: false }));
    assert!(!should_teleport(Coverage { drawn: true, border: true }));
    assert!(!should_teleport(Coverage { drawn: false, border: false }));
}

#[test]
fn portal_filling_view_triggers() {
    let (w, h) = (32usize, 24usize);
    let c = looking_east(10 * UNIT + UNIT / 2, 10 * UNIT + UNIT / 2);
    let p = Portal { x: 10 * UNIT + UNIT / 2 + 102, y: 10 * UNIT + UNIT / 2, texture: 0, dest_x: 5 * UNIT + UNIT / 2, dest_y: 5 * UNIT + UNIT / 2 };
    let mut view = view_for(w, h, 1);
    let mut color = vec![0u32; w * h];
    let depth = vec![20 * UNIT; w];
    let moved = render_portal(&scene(), &p, &mut view, &mut color, &depth, w, h, &c, 0);
    assert_eq!(moved, Some(c.moved_to(p.dest_x, p.dest_y)));
    // the frame now shows the view through the portal
    assert_eq!(color, view.color);
    assert_eq!(view.textures.textures[0][3], 255);
}

#[test]
fn smaller_portal_never_triggers() {
    let (w, h) = (32usize, 24usize);
    let c = looking_east(10 * UNIT + UNIT / 2, 10 * UNIT + UNIT / 2);
    let p = Portal { x: 15 * UNIT + UNIT / 2, y: 10 * UNIT + UNIT / 2, texture: 0, dest_x: 5 * UNIT + UNIT / 2, dest_y: 5 * UNIT + UNIT / 2 };
    let mut view = view_for(w, h, 1);
    let mut color = vec![0u32; w * h];
    let depth = vec![20 * UNIT; w];
    let moved = render_portal(&scene(), &p, &mut view, &mut color, &depth, w, h, &c, 7);
    assert_eq!(moved, None);
    // the left edge of the portal is drawn as border: yellow with a red ramp
    let size = 24 / 5;
    let left = 16 - size / 2;
    assert_eq!(color[12 * w + left], 0xffff00 | (((12 + 7) * 10) % 255) as u32);
}

#[test]
fn portals_move_camera_and_report() {
    let (w, h) = (32usize, 24usize);
    let mut c = looking_east(10 * UNIT + UNIT / 2, 10 * UNIT + UNIT / 2);
    let near = Portal { x: 10 * UNIT + UNIT / 2 + 102, y: 10 * UNIT + UNIT / 2, texture: 1, dest_x: 5 * UNIT + UNIT / 2, dest_y: 5 * UNIT + UNIT / 2 };
    let far = Portal { x: 3 * UNIT, y: 17 * UNIT, texture: 0, dest_x: 2 * UNIT, dest_y: 2 * UNIT };
    let mut view = view_for(w, h, 2);
    let mut color = vec![0u32; w * h];
    let depth = vec![20 * UNIT; w];
    let got = render_portals(&scene(), &vec![far, near], &mut view, &mut color, &depth, w, h, &mut c, 0);
    assert_eq!(got, vec![1]);
    assert_eq!((c.pos_x, c.pos_y), (near.dest_x, near.dest_y));
}

#[test]
fn dormant_portals_change_nothing() {
    let (w, h) = (32usize, 24usize);
    let mut c = looking_east(10 * UNIT + UNIT / 2, 10 * UNIT + UNIT / 2);
    let start = c;
    let far = Portal { x: 3 * UNIT, y: 17 * UNIT, texture: 0, dest_x: 2 * UNIT, dest_y: 2 * UNIT };
    let mut view = view_for(w, h, 1);
    view.color[5] = 9;
    let mut color = vec![4u32; w * h];
    let depth = vec![20 * UNIT; w];
    let got = render_portals(&scene(), &vec![far], &mut view, &mut color, &depth, w, h, &mut c, 0);
    assert!(got.is_empty());
    assert_eq!(c, start);
    assert_eq!(color, vec![4u32; w * h]);
    assert_eq!(view.color[5], 9);
    assert!(view.textures.textures[0].iter().all(|&b| b == 0));
}

#[test]
fn later_portals_see_moved_camera() {
    let (w, h) = (32usize, 24usize);
    let mut c = looking_east(10 * UNIT + UNIT / 2, 10 * UNIT + UNIT / 2);
    // fires at the start and sends the camera to (5.5, 5.5)
    let first = Portal { x: 10 * UNIT + UNIT / 2 + 102, y: 10 * UNIT + UNIT / 2, texture: 0, dest_x: 5 * UNIT + UNIT / 2, dest_y: 5 * UNIT + UNIT / 2 };
    // right in front of the moved camera, so it fires too and sends it to (14.5, 14.5)
    let second = Portal { x: 5 * UNIT + UNIT / 2 + 102, y: 5 * UNIT + UNIT / 2, texture: 1, dest_x: 14 * UNIT + UNIT / 2, dest_y: 14 * UNIT + UNIT / 2 };
    let mut view = view_for(w, h, 2);
    let mut color = vec![0u32; w * h];
    let depth = vec![20 * UNIT; w];
    let got = render_portals(&scene(), &vec![first, second], &mut view, &mut color, &depth, w, h, &mut c, 0);
    assert_eq!(got, vec![0, 1]);
    assert_eq!((c.pos_x, c.pos_y), (second.dest_x, second.dest_y));
    assert_eq!(view.textures.textures[1][3], 255);
}

#[test]
fn portal_whose_view_leaves_the_grid_still_teleports() {
    let (w, h) = (32usize, 24usize);
    let mut c = looking_east(4 * UNIT + 819, 5 * UNIT);
    let p = Portal { x: 5 * UNIT, y: 5 * UNIT, texture: 0, dest_x: 102, dest_y: 5 * UNIT };
    let (v, _) = portal_view(&c, &p).expect("active");
    assert!(v.pos_x < 0);
    let mut view = view_for(w, h, 1);
    let mut color = vec![0u32; w * h];
    let depth = vec![20 * UNIT; w];
    let got = render_portals(&scene(), &vec![p], &mut view, &mut color, &depth, w, h, &mut c, 0);
    assert_eq!(got, vec![0]);
    assert_eq!((c.pos_x, c.pos_y), (102, 5 * UNIT));
}
