use vstd::prelude::*;
use crate::camera::Camera;
use crate::grid::{grid_wf, materials_within, validate_grid};
use crate::screen::{Atlas, pixel};
use crate::walls::{render_walls, wall_pixel, wall_depth, screen_ok, MAX_START};
use crate::floor::{render_floor_ceiling, flat_pixel};
use crate::sprites::{Sprite, Blend, group_ok, group_pixel, far_to_near, keys_of, render_sprites, check_group};

verus! {

/// Sprites drawn with one atlas and one blend mode.
pub struct SpriteGroup {
    pub sprites: Vec<Sprite>,
    pub atlas: Atlas,
    pub mode: Blend,
}

/// Everything a frame is drawn from besides the camera: the grid, the
/// wall/floor/ceiling textures with the level's floor and ceiling slots,
/// and the sprite groups in drawing order.
pub struct Scene {
    pub grid: Vec<Vec<u8>>,
    pub textures: Atlas,
    pub floor_texture: usize,
    pub ceiling_texture: usize,
    pub groups: Vec<SpriteGroup>,
}

impl Scene {
    pub open spec fn wf(&self, w: int, h: int) -> bool {
        &&& self.textures.wf()
        &&& self.textures.bytes_per_pixel == 3
        &&& grid_wf(self.grid@)
        &&& materials_within(self.grid@, self.textures.textures@.len() as int)
        &&& self.floor_texture < self.textures.textures@.len()
        &&& self.ceiling_texture < self.textures.textures@.len()
        &&& forall|i: int| 0 <= i < self.groups@.len() ==> #[trigger] group_ok(
            self.groups@[i].atlas, self.groups@[i].mode, self.groups@[i].sprites@, w, h)
    }
}

impl Scene {
    /// Whether the scene can be drawn on a `w` by `h` screen (`wf`), for
    /// scenes assembled from outside data.
    pub fn check(&self, w: usize, h: usize) -> (r: bool)
        ensures
            r == self.wf(w as int, h as int),
    {
        if !self.textures.check() || self.textures.bytes_per_pixel != 3 {
            return false;
        }
        if validate_grid(&self.grid, self.textures.textures.len()).is_err() {
            return false;
        }
        if !(self.floor_texture < self.textures.textures.len() && self.ceiling_texture < self.textures.textures.len()) {
            return false;
        }
        let mut i: usize = 0;
        while i < self.groups.len()
            invariant
                i <= self.groups@.len(),
                forall|k: int| 0 <= k < i ==> #[trigger] group_ok(
                    self.groups@[k].atlas, self.groups@[k].mode, self.groups@[k].sprites@, w as int, h as int),
            decreases self.groups@.len() - i,
        {
            let gr = &self.groups[i];
            if !check_group(&gr.atlas, gr.mode, &gr.sprites, w, h) {
                return false;
            }
            i += 1;
        }
        true
    }
}

/// The depth buffer after the wall pass.
pub open spec fn walls_depth(scene: Scene, cam: Camera, w: int, start: int, old: Seq<i64>) -> Seq<i64> {
    Seq::new(w as nat, |x: int| wall_depth(scene.grid@, cam, w, x, start, old[x]) as i64)
}

/// Pixel `(x, y)` after the first `m` sprite groups are drawn over `base`.
pub open spec fn groups_pixel(
    groups: Seq<SpriteGroup>,
    m: nat,
    cam: Camera,
    depth: Seq<i64>,
    w: int,
    h: int,
    tick: int,
    x: int,
    y: int,
    base: u32,
) -> u32
    decreases m,
{
    if m == 0 {
        base
    } else {
        let gr = groups[m - 1];
        group_pixel(
            gr.atlas,
            gr.mode,
            cam,
            gr.sprites@,
            far_to_near(keys_of(cam, gr.sprites@), gr.sprites@.len()),
            gr.sprites@.len(),
            depth,
            w,
            h,
            tick,
            x,
            y,
            groups_pixel(groups, (m - 1) as nat, cam, depth, w, h, tick, x, y, base),
        )
    }
}

/// Pixel `(x, y)` of a frame: floor and ceiling, walls over them, then the
/// sprite groups in order, tested against the walls' depth buffer.
pub open spec fn frame_pixel(
    scene: Scene,
    cam: Camera,
    w: int,
    h: int,
    start: int,
    tick: int,
    old_depth: Seq<i64>,
    x: int,
    y: int,
) -> u32 {
    let flat = flat_pixel(scene.textures, scene.floor_texture as int, scene.ceiling_texture as int, cam, w, h, x, y);
    let walled = wall_pixel(scene.textures, scene.grid@, cam, w, h, start, x, y, flat);
    groups_pixel(scene.groups@, scene.groups@.len(), cam, walls_depth(scene, cam, w, start, old_depth), w, h, tick, x, y, walled)
}

/// Renders a frame: floor and ceiling, then walls (which fill `depth`),
/// then every sprite group.  `start` skips wall cells nearer than it (used
/// for views through a portal).
pub fn render(
    scene: &Scene,
    color: &mut Vec<u32>,
    depth: &mut Vec<i64>,
    w: usize,
    h: usize,
    cam: &Camera,
    start: i64,
    tick: u64,
)
    requires
        scene.wf(w as int, h as int),
        cam.wf(),
        screen_ok(w as int, h as int),
        0 <= start <= MAX_START,
        old(color)@.len() == w * h,
        old(depth)@.len() == w,
    ensures
        final(color)@.len() == w * h,
        final(depth)@ == walls_depth(*scene, *cam, w as int, start as int, old(depth)@),
        forall|x: int, y: int|
            0 <= x < w && 0 <= y < h ==> #[trigger] final(color)@[pixel(w as int, x, y)] == frame_pixel(
                *scene, *cam, w as int, h as int, start as int, tick as int, old(depth)@, x, y),
{
    let ghost d0 = depth@;
    render_floor_ceiling(&scene.textures, scene.floor_texture, scene.ceiling_texture, color, w, h, cam);
    let ghost c1 = color@;
    render_walls(&scene.textures, &scene.grid, color, depth, w, h, cam, start);
    assert(depth@ =~= walls_depth(*scene, *cam, w as int, start as int, d0));
    let ghost c2 = color@;
    let mut i: usize = 0;
    while i < scene.groups.len()
        invariant
            scene.wf(w as int, h as int),
            cam.wf(),
            screen_ok(w as int, h as int),
            i <= scene.groups@.len(),
            color@.len() == w * h,
            depth@ == walls_depth(*scene, *cam, w as int, start as int, d0),
            depth@.len() == w,
            forall|x: int, y: int|
                0 <= x < w && 0 <= y < h ==> #[trigger] color@[pixel(w as int, x, y)] == groups_pixel(
                    scene.groups@, i as nat, *cam, depth@, w as int, h as int, tick as int, x, y, c2[pixel(w as int, x, y)]),
        decreases scene.groups@.len() - i,
    {
        let gr = &scene.groups[i];
        assert(group_ok(scene.groups@[i as int].atlas, scene.groups@[i as int].mode, scene.groups@[i as int].sprites@, w as int, h as int));
        let _ = render_sprites(&gr.atlas, gr.mode, &gr.sprites, color, depth, w, h, cam, tick);
        i += 1;
    }
}

} // verus!
