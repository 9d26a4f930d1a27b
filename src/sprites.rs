use vstd::prelude::*;
use crate::fixed::{UNIT, MAX_CELLS};
use crate::camera::{Camera, abs};
use crate::screen::{Atlas, pixel, lemma_pixel_in, lemma_pixel_distinct};
use crate::walls::screen_ok;

verus! {

/// A billboard sprite: position (fixed point) and the texture it shows.
#[derive(Clone, Copy, Debug, PartialEq, Eq, Structural)]
pub struct Sprite {
    pub x: i64,
    pub y: i64,
    pub texture: usize,
}

/// How the texels of a sprite group are put over the picture.
#[derive(Clone, Copy, Debug, PartialEq, Eq, Structural)]
pub enum Blend {
    /// RGB texels; a texel of colour 0 is transparent.
    Opaque,
    /// RGBA texels; alpha masks each channel bitwise (on or off, no grading).
    AlphaMasked,
    /// An RGBA texture the size of the screen, sampled at the pixel's own
    /// screen position, framed by an animated border band.
    PortalMapped,
}

impl Sprite {
    pub open spec fn wf(&self) -> bool {
        &&& 0 <= self.x < MAX_CELLS * UNIT
        &&& 0 <= self.y < MAX_CELLS * UNIT
    }
}

/// Squared distance from the camera (no square root needed to order).
pub open spec fn dist_key(cam: Camera, s: Sprite) -> int {
    (cam.pos_x - s.x) * (cam.pos_x - s.x) + (cam.pos_y - s.y) * (cam.pos_y - s.y)
}

pub open spec fn keys_of(cam: Camera, sprites: Seq<Sprite>) -> Seq<int> {
    sprites.map_values(|s: Sprite| dist_key(cam, s))
}

/// Position in `o` (from `k` on) of the first sprite strictly nearer than
/// `key`, or the end of `o`.
pub open spec fn first_nearer(keys: Seq<int>, o: Seq<usize>, k: int, key: int) -> int
    decreases o.len() - k,
{
    if k < 0 || k >= o.len() {
        o.len() as int
    } else if keys[o[k] as int] < key {
        k
    } else {
        first_nearer(keys, o, k + 1, key)
    }
}

/// The drawing order of the first `n` sprites: farthest first, and sprites
/// at equal distance in their list order.
pub open spec fn far_to_near(keys: Seq<int>, n: nat) -> Seq<usize>
    decreases n,
{
    if n == 0 {
        Seq::<usize>::empty()
    } else {
        let o = far_to_near(keys, (n - 1) as nat);
        o.insert(first_nearer(keys, o, 0, keys[n - 1]), (n - 1) as usize)
    }
}

proof fn lemma_first_nearer_range(keys: Seq<int>, o: Seq<usize>, k: int, key: int)
    requires
        0 <= k <= o.len(),
    ensures
        k <= first_nearer(keys, o, k, key) <= o.len(),
    decreases o.len() - k,
{
    if k < o.len() && !(keys[o[k] as int] < key) {
        lemma_first_nearer_range(keys, o, k + 1, key);
    }
}

proof fn lemma_far_to_near_len(keys: Seq<int>, n: nat)
    ensures
        far_to_near(keys, n).len() == n,
        forall|k: int| 0 <= k < n ==> (#[trigger] far_to_near(keys, n)[k]) < n,
    decreases n,
{
    if n > 0 {
        let o = far_to_near(keys, (n - 1) as nat);
        lemma_far_to_near_len(keys, (n - 1) as nat);
        lemma_first_nearer_range(keys, o, 0, keys[n - 1]);
        let p = first_nearer(keys, o, 0, keys[n - 1]);
        assert forall|k: int| 0 <= k < n implies (#[trigger] far_to_near(keys, n)[k]) < n by {
            if k < p {
                assert(far_to_near(keys, n)[k] == o[k]);
            } else if k > p {
                assert(far_to_near(keys, n)[k] == o[k - 1]);
            }
        }
    }
}

/// Squared distances of the sprites from the camera.
fn distance_keys(cam: &Camera, sprites: &Vec<Sprite>) -> (keys: Vec<i64>)
    requires
        cam.wf(),
        forall|i: int| 0 <= i < sprites@.len() ==> (#[trigger] sprites@[i]).wf(),
    ensures
        keys@.len() == sprites@.len(),
        forall|i: int| 0 <= i < sprites@.len() ==> keys@[i] == #[trigger] keys_of(*cam, sprites@)[i],
{
    let mut keys: Vec<i64> = Vec::new();
    let mut i: usize = 0;
    while i < sprites.len()
        invariant
            cam.wf(),
            forall|k: int| 0 <= k < sprites@.len() ==> (#[trigger] sprites@[k]).wf(),
            i <= sprites@.len(),
            keys@.len() == i,
            forall|k: int| 0 <= k < i ==> keys@[k] == #[trigger] keys_of(*cam, sprites@)[k],
        decreases sprites@.len() - i,
    {
        let s = sprites[i];
        let ex = cam.pos_x - s.x;
        let ey = cam.pos_y - s.y;
        assert(ex * ex <= 0x2000000000 && ey * ey <= 0x2000000000) by (nonlinear_arith)
            requires abs(ex as int) <= 270336, abs(ey as int) <= 270336;
        assert(ex * ex >= 0 && ey * ey >= 0) by (nonlinear_arith);
        keys.push(ex * ex + ey * ey);
        i += 1;
    }
    keys
}

/// Orders sprites for drawing: farthest from the camera first, so that
/// nearer sprites are drawn over farther ones; equal distances keep their
/// list order.
pub fn depth_order(cam: &Camera, sprites: &Vec<Sprite>) -> (order: Vec<usize>)
    requires
        cam.wf(),
        forall|i: int| 0 <= i < sprites@.len() ==> (#[trigger] sprites@[i]).wf(),
    ensures
        order@ == far_to_near(keys_of(*cam, sprites@), sprites@.len()),
        order@.len() == sprites@.len(),
        forall|k: int| 0 <= k < order@.len() ==> (#[trigger] order@[k]) < sprites@.len(),
{
    let keys = distance_keys(cam, sprites);
    let ghost ks = keys_of(*cam, sprites@);
    let mut order: Vec<usize> = Vec::new();
    let mut i: usize = 0;
    while i < keys.len()
        invariant
            keys@.len() == sprites@.len(),
            forall|k: int| 0 <= k < sprites@.len() ==> keys@[k] == #[trigger] ks[k],
            ks == keys_of(*cam, sprites@),
            i <= keys@.len(),
            order@ == far_to_near(ks, i as nat),
        decreases keys@.len() - i,
    {
        proof {
            lemma_far_to_near_len(ks, i as nat);
        }
        let mut p: usize = 0;
        while p < order.len() && keys[order[p]] >= keys[i]
            invariant
                keys@.len() == sprites@.len(),
                forall|k: int| 0 <= k < sprites@.len() ==> keys@[k] == #[trigger] ks[k],
                i < keys@.len(),
                order@ == far_to_near(ks, i as nat),
                order@.len() == i,
                forall|k: int| 0 <= k < i ==> (#[trigger] order@[k]) < i,
                p <= order@.len(),
                first_nearer(ks, order@, 0, ks[i as int]) == first_nearer(ks, order@, p as int, ks[i as int]),
            decreases order@.len() - p,
        {
            p += 1;
        }
        order.insert(p, i);
        i += 1;
    }
    proof {
        lemma_far_to_near_len(ks, i as nat);
    }
    order
}

/// A sprite in camera space: `tx / den` across and `ty / den` in depth
/// (`den > 0`), its screen column and its square size in pixels.
pub struct Projection {
    pub tx: int,
    pub ty: int,
    pub den: int,
    pub screen_x: int,
    pub size: int,
}

/// Transforms a sprite by the inverse of the `[plane, direction]` basis and
/// projects it: column `w/2 * (1 + tx/ty)`, size `h / ty`.
pub open spec fn project(cam: Camera, s: Sprite, w: int, h: int) -> Projection {
    let sx = s.x - cam.pos_x;
    let sy = s.y - cam.pos_y;
    let nx = cam.dir_y * sx - cam.dir_x * sy;
    let ny = cam.plane_x * sy - cam.plane_y * sx;
    let det = cam.det();
    let tx = if det > 0 { nx } else { -nx };
    let ty = if det > 0 { ny } else { -ny };
    let den = abs(det);
    Projection {
        tx,
        ty,
        den,
        screen_x: if ty > 0 { w * (ty + tx) / (2 * ty) } else { 0 },
        size: if ty > 0 { h * den / ty } else { 0 },
    }
}

pub open spec fn rect_left(p: Projection) -> int {
    p.screen_x - p.size / 2
}

pub open spec fn rect_right(p: Projection) -> int {
    p.screen_x + p.size / 2
}

pub open spec fn rect_top(p: Projection, h: int) -> int {
    h / 2 - p.size / 2
}

pub open spec fn rect_bottom(p: Projection, h: int) -> int {
    h / 2 + p.size / 2
}

/// The sprite is nearer than the wall recorded for column `x`.
pub open spec fn before_wall(p: Projection, depth: Seq<i64>, x: int) -> bool {
    p.ty * UNIT < depth[x] * p.den
}

/// Pixel `(x, y)` is drawn by the sprite: it is in front of the camera, the
/// pixel is on screen and in its rectangle, and the sprite passes the depth
/// test of the column.
pub open spec fn covers(p: Projection, depth: Seq<i64>, w: int, h: int, x: int, y: int) -> bool {
    &&& p.ty > 0
    &&& 0 <= x < w
    &&& 0 <= y < h
    &&& rect_left(p) <= x < rect_right(p)
    &&& rect_top(p, h) <= y < rect_bottom(p, h)
    &&& before_wall(p, depth, x)
}

/// Column `x` lies in the border band of a portal-mapped sprite.
pub open spec fn in_border(mode: Blend, p: Projection, x: int) -> bool {
    mode == Blend::PortalMapped && (x <= rect_left(p) + 3 || x >= rect_right(p) - 3)
}

/// Colour of the portal border at row `y` and tick `t`.
pub open spec fn border_color(y: int, t: int) -> u32 {
    0xffff00u32 | ((((y + t) * 10) % 255) as u32)
}

/// Each channel of the texel where `a` has its bits, of `old` elsewhere.
pub open spec fn mask_blend(old: u32, r: u8, g: u8, b: u8, a: u8) -> u32 {
    let a = a as u32;
    let t = (255 - a) as u32;
    ((r as u32 & a) | (old & t)) | (((g as u32 & a) << 8u32) | (old & (t << 8u32))) | (((b as u32 & a)
        << 16u32) | (old & (t << 16u32)))
}

/// Index of the texel that pixel `(x, y)` samples.
pub open spec fn sprite_texel_index(atlas: Atlas, mode: Blend, p: Projection, h: int, x: int, y: int) -> int {
    if mode == Blend::PortalMapped {
        x + y * atlas.width
    } else {
        (x - rect_left(p)) * atlas.width / p.size + ((y - rect_top(p, h)) * atlas.height / p.size)
            * atlas.width
    }
}

/// The colour pixel `(x, y)` has after sprite `s` is drawn over `old`.
pub open spec fn sprite_pixel(
    atlas: Atlas,
    mode: Blend,
    cam: Camera,
    s: Sprite,
    depth: Seq<i64>,
    w: int,
    h: int,
    tick: int,
    x: int,
    y: int,
    old: u32,
) -> u32 {
    let p = project(cam, s, w, h);
    if !covers(p, depth, w, h, x, y) {
        old
    } else if in_border(mode, p, x) {
        border_color(y, tick)
    } else {
        let i = sprite_texel_index(atlas, mode, p, h, x, y);
        if mode == Blend::Opaque {
            let c = atlas.texel(s.texture as int, i);
            if c != 0 { c } else { old }
        } else {
            let tex = atlas.textures@[s.texture as int]@;
            mask_blend(old, tex[i * 4], tex[i * 4 + 1], tex[i * 4 + 2], tex[i * 4 + 3])
        }
    }
}

/// What the group's sprites are drawn on: valid textures of the right
/// layout, and sprites that name them.
pub open spec fn group_ok(atlas: Atlas, mode: Blend, sprites: Seq<Sprite>, w: int, h: int) -> bool {
    &&& atlas.wf()
    &&& (mode == Blend::Opaque ==> atlas.bytes_per_pixel == 3)
    &&& (mode != Blend::Opaque ==> atlas.bytes_per_pixel == 4)
    &&& (mode == Blend::PortalMapped ==> atlas.width >= w && atlas.height >= h)
    &&& forall|i: int| 0 <= i < sprites.len() ==> (#[trigger] sprites[i]).wf() && sprites[i].texture < atlas.textures@.len()
}

fn border_color_exec(y: usize, tick: u64) -> (c: u32)
    requires
        y < 4096,
    ensures
        c == border_color(y as int, tick as int),
{
    let r = ((y as u64 + tick % 255) * 10) % 255;
    proof {
        let t = tick as int;
        vstd::arithmetic::div_mod::lemma_fundamental_div_mod(t, 255);
        assert((y + t) * 10 == (y + t % 255) * 10 + (t / 255 * 10) * 255) by (nonlinear_arith)
            requires t == 255 * (t / 255) + t % 255;
        vstd::arithmetic::div_mod::lemma_mod_multiples_vanish(t / 255 * 10, (y + t % 255) * 10, 255);
    }
    0xffff00u32 | (r as u32)
}

fn mask_blend_exec(old: u32, r: u8, g: u8, b: u8, a: u8) -> (c: u32)
    ensures
        c == mask_blend(old, r, g, b, a),
{
    let a = a as u32;
    let t = 255u32 - a;
    ((r as u32 & a) | (old & t)) | (((g as u32 & a) << 8u32) | (old & (t << 8u32))) | (((b as u32 & a)
        << 16u32) | (old & (t << 16u32)))
}

/// Camera-space transform of a sprite, as exec values.
fn transform(cam: &Camera, s: &Sprite) -> (r: (i64, i64, i64))
    requires
        cam.wf(),
        s.wf(),
    ensures
        r.0 == project(*cam, *s, 1, 1).tx,
        r.1 == project(*cam, *s, 1, 1).ty,
        r.2 == project(*cam, *s, 1, 1).den,
        abs(r.0 as int) <= 0x80000000,
        abs(r.1 as int) <= 0x80000000,
        1 <= r.2 <= 0x800000,
{
    let sx = s.x - cam.pos_x;
    let sy = s.y - cam.pos_y;
    assert(abs(cam.dir_y * sx) <= 0x40000000 && abs(cam.dir_x * sy) <= 0x40000000
        && abs(cam.plane_x * sy) <= 0x40000000 && abs(cam.plane_y * sx) <= 0x40000000) by (nonlinear_arith)
        requires
            abs(sx as int) <= 270336,
            abs(sy as int) <= 270336,
            abs(cam.dir_x as int) <= 2048,
            abs(cam.dir_y as int) <= 2048,
            abs(cam.plane_x as int) <= 2048,
            abs(cam.plane_y as int) <= 2048;
    assert(abs(cam.plane_x * cam.dir_y) <= 0x400000 && abs(cam.dir_x * cam.plane_y) <= 0x400000) by (nonlinear_arith)
        requires
            abs(cam.dir_x as int) <= 2048,
            abs(cam.dir_y as int) <= 2048,
            abs(cam.plane_x as int) <= 2048,
            abs(cam.plane_y as int) <= 2048;
    let nx = cam.dir_y * sx - cam.dir_x * sy;
    let ny = cam.plane_x * sy - cam.plane_y * sx;
    let det = cam.plane_x * cam.dir_y - cam.dir_x * cam.plane_y;
    if det > 0 { (nx, ny, det) } else { (-nx, -ny, -det) }
}

/// Draws one sprite over `color`.  Reports whether it drew any pixel, and
/// whether any pixel it drew was a border pixel.
fn draw_sprite(
    atlas: &Atlas,
    mode: Blend,
    cam: &Camera,
    s: &Sprite,
    color: &mut Vec<u32>,
    depth: &Vec<i64>,
    w: usize,
    h: usize,
    tick: u64,
) -> (r: (bool, bool))
    requires
        group_ok(*atlas, mode, seq![*s], w as int, h as int),
        cam.wf(),
        screen_ok(w as int, h as int),
        old(color)@.len() == w * h,
        depth@.len() == w,
    ensures
        final(color)@.len() == w * h,
        forall|x: int, y: int|
            0 <= x < w && 0 <= y < h ==> #[trigger] final(color)@[pixel(w as int, x, y)] == sprite_pixel(
                *atlas, mode, *cam, *s, depth@, w as int, h as int, tick as int, x, y, old(color)@[pixel(w as int, x, y)]),
        r.0 == exists|x: int, y: int| covers(project(*cam, *s, w as int, h as int), depth@, w as int, h as int, x, y),
        r.1 == exists|x: int, y: int|
            covers(project(*cam, *s, w as int, h as int), depth@, w as int, h as int, x, y)
                && in_border(mode, project(*cam, *s, w as int, h as int), x),
{
    assert(seq![*s][0] == *s);
    let ghost p = project(*cam, *s, w as int, h as int);
    let ghost c0 = color@;
    let (tx, ty, den) = transform(cam, s);
    if ty <= 0 {
        return (false, false);
    }
    let hi = h as i64;
    let wi = w as i64;
    assert(hi * den <= 0x400000000 && hi * den >= 0) by (nonlinear_arith)
        requires 1 <= hi <= 2048, 1 <= den <= 0x800000;
    let size = hi * den / ty;
    assert(size <= hi * den) by {
        vstd::arithmetic::div_mod::lemma_div_is_ordered_by_denominator(hi * den, 1, ty as int);
    }
    assert(abs(wi * (ty + tx)) <= 0x100000000 * 2048) by (nonlinear_arith)
        requires 1 <= wi <= 2048, abs(ty + tx) <= 0x100000000;
    let sxq = crate::fixed::floor_div((wi as i128) * ((ty + tx) as i128), 2 * (ty as i128));
    let screen_x = sxq as i64;
    assert(screen_x == p.screen_x && size == p.size);
    let left = screen_x - size / 2;
    let right = screen_x + size / 2;
    let top = hi / 2 - size / 2;
    let bottom = hi / 2 + size / 2;
    let x0 = if left < 0 { 0 } else { left };
    let x1 = if right > wi { wi } else { right };
    let y0 = if top < 0 { 0 } else { top };
    let y1 = if bottom > hi { hi } else { bottom };
    if x0 >= x1 || y0 >= y1 {
        return (false, false);
    }
    let mut drawn = false;
    let mut border = false;
    let mut x = x0;
    while x < x1
        invariant
            group_ok(*atlas, mode, seq![*s], w as int, h as int),
            s.wf(),
            s.texture < atlas.textures@.len(),
            cam.wf(),
            screen_ok(w as int, h as int),
            hi == h,
            wi == w,
            depth@.len() == w,
            color@.len() == w * h,
            p == project(*cam, *s, w as int, h as int),
            ty == p.ty,
            den == p.den,
            ty > 0,
            1 <= den <= 0x800000,
            size == p.size,
            0 <= size <= 0x400000000,
            left == rect_left(p),
            right == rect_right(p),
            top == rect_top(p, h as int),
            bottom == rect_bottom(p, h as int),
            x0 == (if left < 0 { 0 } else { left }),
            x1 == (if right > wi { wi } else { right }),
            y0 == (if top < 0 { 0 } else { top }),
            y1 == (if bottom > hi { hi } else { bottom }),
            x0 < x1,
            y0 < y1,
            x0 <= x <= x1,
            drawn == exists|cx: int, cy: int| cx < x && covers(p, depth@, w as int, h as int, cx, cy),
            border == exists|cx: int, cy: int| cx < x && covers(p, depth@, w as int, h as int, cx, cy) && in_border(mode, p, cx),
            forall|cx: int, cy: int|
                0 <= cx < w && 0 <= cy < h ==> #[trigger] color@[pixel(w as int, cx, cy)] == if cx < x {
                    sprite_pixel(*atlas, mode, *cam, *s, depth@, w as int, h as int, tick as int, cx, cy, c0[pixel(w as int, cx, cy)])
                } else {
                    c0[pixel(w as int, cx, cy)]
                },
        decreases x1 - x,
    {
        let xs = x as usize;
        let ghost col_start = color@;
        assert(abs(depth@[x as int] * den) <= 0x8000000000000000 * 0x800000) by (nonlinear_arith)
            requires 1 <= den <= 0x800000;
        if (ty as i128) * 1024 < (depth[xs] as i128) * (den as i128) {
            let col_border = mode == Blend::PortalMapped && (x <= left + 3 || x >= right - 3);
            let mut y = y0;
            while y < y1
                invariant
                    group_ok(*atlas, mode, seq![*s], w as int, h as int),
                    s.wf(),
                    s.texture < atlas.textures@.len(),
                    screen_ok(w as int, h as int),
                    hi == h,
                    wi == w,
                    xs == x,
                    0 <= x < w,
                    color@.len() == w * h,
                    p == project(*cam, *s, w as int, h as int),
                    ty == p.ty,
                    ty > 0,
                    size == p.size,
                    0 <= size <= 0x400000000,
                    left == rect_left(p),
                    right == rect_right(p),
                    top == rect_top(p, h as int),
                    bottom == rect_bottom(p, h as int),
                    left <= x < right,
                    before_wall(p, depth@, x as int),
                    col_border == in_border(mode, p, x as int),
                    y0 == (if top < 0 { 0 } else { top }),
                    y1 == (if bottom > hi { hi } else { bottom }),
                    y0 <= y <= y1,
                    forall|cx: int, cy: int|
                        0 <= cx < w && 0 <= cy < h ==> #[trigger] color@[pixel(w as int, cx, cy)] == if cx == x && y0 <= cy < y {
                            sprite_pixel(*atlas, mode, *cam, *s, depth@, w as int, h as int, tick as int, cx, cy, col_start[pixel(w as int, cx, cy)])
                        } else {
                            col_start[pixel(w as int, cx, cy)]
                        },
                decreases y1 - y,
            {
                let ys = y as usize;
                proof {
                    lemma_pixel_in(w as int, h as int, x as int, y as int);
                }
                assert(w * h <= 2048 * 2048) by (nonlinear_arith)
                    requires w <= 2048, h <= 2048;
                let idx = ys * w + xs;
                let old_c = color[idx];
                assert(atlas.width * atlas.height <= 1024 * 1024) by (nonlinear_arith)
                    requires atlas.width <= 1024, atlas.height <= 1024;
                let c = if col_border {
                    border_color_exec(ys, tick)
                } else {
                    let ti = if mode == Blend::PortalMapped {
                        assert(xs + ys * atlas.width < atlas.width * atlas.height) by (nonlinear_arith)
                            requires xs < atlas.width, ys < atlas.height;
                        xs + ys * atlas.width
                    } else {
                        assert(0 <= (x - left) * (atlas.width as i64) <= 0x400000000 * 1024) by (nonlinear_arith)
                            requires 0 <= x - left < size, size <= 0x400000000, 1 <= atlas.width <= 1024;
                        assert(0 <= (y - top) * (atlas.height as i64) <= 0x400000000 * 1024) by (nonlinear_arith)
                            requires 0 <= y - top < size, size <= 0x400000000, 1 <= atlas.height <= 1024;
                        let uq = (x - left) * (atlas.width as i64) / size;
                        let vq = (y - top) * (atlas.height as i64) / size;
                        proof {
                            let a = (x - left) as int;
                            let b = (y - top) as int;
                            let tw = atlas.width as int;
                            let th = atlas.height as int;
                            vstd::arithmetic::div_mod::lemma_fundamental_div_mod(a * tw, size as int);
                            vstd::arithmetic::div_mod::lemma_fundamental_div_mod(b * th, size as int);
                            assert(0 <= (a * tw) / (size as int) < tw) by (nonlinear_arith)
                                requires
                                    a * tw == size * ((a * tw) / (size as int)) + (a * tw) % (size as int),
                                    0 <= (a * tw) % (size as int) < size,
                                    0 <= a < size,
                                    tw >= 1;
                            assert(0 <= (b * th) / (size as int) < th) by (nonlinear_arith)
                                requires
                                    b * th == size * ((b * th) / (size as int)) + (b * th) % (size as int),
                                    0 <= (b * th) % (size as int) < size,
                                    0 <= b < size,
                                    th >= 1;
                        }
                        let u = uq as usize;
                        let v = vq as usize;
                        assert(u + v * atlas.width < atlas.width * atlas.height) by (nonlinear_arith)
                            requires u < atlas.width, v < atlas.height;
                        u + v * atlas.width
                    };
                    assert(atlas.width * atlas.height <= 1024 * 1024) by (nonlinear_arith)
                        requires atlas.width <= 1024, atlas.height <= 1024;
                    assert(ti == sprite_texel_index(*atlas, mode, p, h as int, x as int, y as int));
                    if mode == Blend::Opaque {
                        let t = atlas.read_texel(s.texture, ti);
                        if t != 0 { t } else { old_c }
                    } else {
                        proof {
                            assert(ti * 4 + 4 <= atlas.width * atlas.height * 4) by (nonlinear_arith)
                                requires ti < atlas.width * atlas.height;
                        }
                        let tex = &atlas.textures[s.texture];
                        mask_blend_exec(old_c, tex[ti * 4], tex[ti * 4 + 1], tex[ti * 4 + 2], tex[ti * 4 + 3])
                    }
                };
                assert(covers(p, depth@, w as int, h as int, x as int, y as int));
                assert(c == sprite_pixel(*atlas, mode, *cam, *s, depth@, w as int, h as int, tick as int, x as int, y as int, old_c));
                let ghost prev = color@;
                color.set(idx, c);
                proof {
                    assert forall|cx: int, cy: int| 0 <= cx < w && 0 <= cy < h implies #[trigger] color@[pixel(w as int, cx, cy)]
                        == if cx == x && y0 <= cy < y + 1 {
                            sprite_pixel(*atlas, mode, *cam, *s, depth@, w as int, h as int, tick as int, cx, cy, col_start[pixel(w as int, cx, cy)])
                        } else {
                            col_start[pixel(w as int, cx, cy)]
                        } by {
                        lemma_pixel_in(w as int, h as int, cx, cy);
                        if cx != x || cy != y {
                            lemma_pixel_distinct(w as int, cx, cy, x as int, y as int);
                            assert(color@[pixel(w as int, cx, cy)] == prev[pixel(w as int, cx, cy)]);
                        }
                    }
                }
                y = y + 1;
            }
            proof {
                assert(covers(p, depth@, w as int, h as int, x as int, y0 as int));
                assert forall|cx: int, cy: int| 0 <= cx < w && 0 <= cy < h implies #[trigger] color@[pixel(w as int, cx, cy)]
                    == if cx < x + 1 {
                        sprite_pixel(*atlas, mode, *cam, *s, depth@, w as int, h as int, tick as int, cx, cy, c0[pixel(w as int, cx, cy)])
                    } else {
                        c0[pixel(w as int, cx, cy)]
                    } by {
                    if cx == x && !(y0 <= cy < y1) {
                        assert(!covers(p, depth@, w as int, h as int, cx, cy));
                    }
                }
            }
            drawn = true;
            border = border || col_border;
        } else {
            proof {
                assert forall|cy: int| !covers(p, depth@, w as int, h as int, x as int, cy) by {}
            }
        }
        x += 1;
    }
    proof {
        assert forall|cx: int, cy: int| covers(p, depth@, w as int, h as int, cx, cy) implies cx < x by {}
    }
    (drawn, border)
}

/// The colour of pixel `(x, y)` after the first `k` sprites of `order` are
/// drawn over `base`, in that order.
pub open spec fn group_pixel(
    atlas: Atlas,
    mode: Blend,
    cam: Camera,
    sprites: Seq<Sprite>,
    order: Seq<usize>,
    k: nat,
    depth: Seq<i64>,
    w: int,
    h: int,
    tick: int,
    x: int,
    y: int,
    base: u32,
) -> u32
    decreases k,
{
    if k == 0 {
        base
    } else {
        sprite_pixel(
            atlas,
            mode,
            cam,
            sprites[order[k - 1] as int],
            depth,
            w,
            h,
            tick,
            x,
            y,
            group_pixel(atlas, mode, cam, sprites, order, (k - 1) as nat, depth, w, h, tick, x, y, base),
        )
    }
}

/// Some sprite among the first `k` of `order` draws some pixel.
pub open spec fn group_drawn(cam: Camera, sprites: Seq<Sprite>, order: Seq<usize>, k: int, depth: Seq<i64>, w: int, h: int) -> bool {
    exists|j: int, x: int, y: int|
        0 <= j < k && #[trigger] covers(project(cam, sprites[order[j] as int], w, h), depth, w, h, x, y)
}

/// Some sprite among the first `k` of `order` draws a border pixel.
pub open spec fn group_border(
    mode: Blend,
    cam: Camera,
    sprites: Seq<Sprite>,
    order: Seq<usize>,
    k: int,
    depth: Seq<i64>,
    w: int,
    h: int,
) -> bool {
    exists|j: int, x: int, y: int|
        0 <= j < k && #[trigger] covers(project(cam, sprites[order[j] as int], w, h), depth, w, h, x, y)
            && in_border(mode, project(cam, sprites[order[j] as int], w, h), x)
}

/// What a sprite pass drew.
#[derive(Clone, Copy, Debug, PartialEq, Eq, Structural)]
pub struct Coverage {
    /// At least one sprite pixel was drawn.
    pub drawn: bool,
    /// At least one portal border pixel was drawn.
    pub border: bool,
}

/// Composites a group of sprites over `color`, farthest first, each pixel
/// only where the sprite is nearer than the wall of its column.
pub fn render_sprites(
    atlas: &Atlas,
    mode: Blend,
    sprites: &Vec<Sprite>,
    color: &mut Vec<u32>,
    depth: &Vec<i64>,
    w: usize,
    h: usize,
    cam: &Camera,
    tick: u64,
) -> (r: Coverage)
    requires
        group_ok(*atlas, mode, sprites@, w as int, h as int),
        cam.wf(),
        screen_ok(w as int, h as int),
        old(color)@.len() == w * h,
        depth@.len() == w,
    ensures
        final(color)@.len() == w * h,
        forall|x: int, y: int|
            0 <= x < w && 0 <= y < h ==> #[trigger] final(color)@[pixel(w as int, x, y)] == group_pixel(
                *atlas,
                mode,
                *cam,
                sprites@,
                far_to_near(keys_of(*cam, sprites@), sprites@.len()),
                sprites@.len(),
                depth@,
                w as int,
                h as int,
                tick as int,
                x,
                y,
                old(color)@[pixel(w as int, x, y)],
            ),
        r.drawn == group_drawn(*cam, sprites@, far_to_near(keys_of(*cam, sprites@), sprites@.len()), sprites@.len() as int, depth@, w as int, h as int),
        r.border == group_border(mode, *cam, sprites@, far_to_near(keys_of(*cam, sprites@), sprites@.len()), sprites@.len() as int, depth@, w as int, h as int),
{
    let order = depth_order(cam, sprites);
    let ghost c0 = color@;
    let mut drawn = false;
    let mut border = false;
    let mut k: usize = 0;
    while k < order.len()
        invariant
            group_ok(*atlas, mode, sprites@, w as int, h as int),
            cam.wf(),
            screen_ok(w as int, h as int),
            depth@.len() == w,
            color@.len() == w * h,
            order@ == far_to_near(keys_of(*cam, sprites@), sprites@.len()),
            order@.len() == sprites@.len(),
            forall|j: int| 0 <= j < order@.len() ==> (#[trigger] order@[j]) < sprites@.len(),
            k <= order@.len(),
            drawn == group_drawn(*cam, sprites@, order@, k as int, depth@, w as int, h as int),
            border == group_border(mode, *cam, sprites@, order@, k as int, depth@, w as int, h as int),
            forall|x: int, y: int|
                0 <= x < w && 0 <= y < h ==> #[trigger] color@[pixel(w as int, x, y)] == group_pixel(
                    *atlas, mode, *cam, sprites@, order@, k as nat, depth@, w as int, h as int, tick as int, x, y,
                    c0[pixel(w as int, x, y)]),
        decreases order@.len() - k,
    {
        let i = order[k];
        let s = sprites[i];
        assert(seq![s][0] == s);
        let ghost before = color@;
        let got = draw_sprite(atlas, mode, cam, &s, color, depth, w, h, tick);
        proof {
            let p = project(*cam, s, w as int, h as int);
            if got.0 {
                let (x, y) = choose|x: int, y: int| covers(p, depth@, w as int, h as int, x, y);
                assert(covers(project(*cam, sprites@[order@[k as int] as int], w as int, h as int), depth@, w as int, h as int, x, y));
            }
            if got.1 {
                let (x, y) = choose|x: int, y: int| covers(p, depth@, w as int, h as int, x, y) && in_border(mode, p, x);
                assert(covers(project(*cam, sprites@[order@[k as int] as int], w as int, h as int), depth@, w as int, h as int, x, y));
            }
            if group_drawn(*cam, sprites@, order@, k + 1, depth@, w as int, h as int) && !drawn {
                let (j, x, y) = choose|j: int, x: int, y: int|
                    0 <= j < k + 1 && #[trigger] covers(project(*cam, sprites@[order@[j] as int], w as int, h as int), depth@, w as int, h as int, x, y);
                assert(j == k);
            }
            if group_border(mode, *cam, sprites@, order@, k + 1, depth@, w as int, h as int) && !border {
                let (j, x, y) = choose|j: int, x: int, y: int|
                    0 <= j < k + 1 && #[trigger] covers(project(*cam, sprites@[order@[j] as int], w as int, h as int), depth@, w as int, h as int, x, y)
                        && in_border(mode, project(*cam, sprites@[order@[j] as int], w as int, h as int), x);
                assert(j == k);
            }
        }
        drawn = drawn || got.0;
        border = border || got.1;
        k += 1;
    }
    Coverage { drawn, border }
}

/// Depth occlusion: a sprite leaves every pixel of a column unchanged when
/// the wall recorded for that column is not farther than the sprite.
pub proof fn lemma_occluded_column(
    atlas: Atlas,
    mode: Blend,
    cam: Camera,
    s: Sprite,
    depth: Seq<i64>,
    w: int,
    h: int,
    tick: int,
    x: int,
    y: int,
    old: u32,
)
    requires
        !before_wall(project(cam, s, w, h), depth, x),
    ensures
        sprite_pixel(atlas, mode, cam, s, depth, w, h, tick, x, y, old) == old,
{
}

/// Depth occlusion for a whole group: when no sprite of the group is
/// nearer than the wall of column `x`, the group draws nothing there.
pub proof fn lemma_occluded_column_group(
    atlas: Atlas,
    mode: Blend,
    cam: Camera,
    sprites: Seq<Sprite>,
    order: Seq<usize>,
    k: nat,
    depth: Seq<i64>,
    w: int,
    h: int,
    tick: int,
    x: int,
    y: int,
    base: u32,
)
    requires
        forall|j: int| 0 <= j < k ==> !before_wall(#[trigger] project(cam, sprites[order[j] as int], w, h), depth, x),
    ensures
        group_pixel(atlas, mode, cam, sprites, order, k, depth, w, h, tick, x, y, base) == base,
    decreases k,
{
    if k > 0 {
        assert(!before_wall(project(cam, sprites[order[k - 1] as int], w, h), depth, x));
        lemma_occluded_column_group(atlas, mode, cam, sprites, order, (k - 1) as nat, depth, w, h, tick, x, y, base);
    }
}

/// Compositing is repeatable: two buffers that meet the contract of
/// `render_sprites` for the same inputs over the same starting buffer (a
/// freshly cleared one, say) are equal.
pub proof fn lemma_composite_repeatable(
    atlas: Atlas,
    mode: Blend,
    cam: Camera,
    sprites: Seq<Sprite>,
    depth: Seq<i64>,
    w: int,
    h: int,
    tick: int,
    base: Seq<u32>,
    out1: Seq<u32>,
    out2: Seq<u32>,
)
    requires
        w >= 1,
        h >= 1,
        base.len() == w * h,
        out1.len() == w * h,
        out2.len() == w * h,
        forall|x: int, y: int|
            0 <= x < w && 0 <= y < h ==> #[trigger] out1[pixel(w, x, y)] == group_pixel(
                atlas, mode, cam, sprites, far_to_near(keys_of(cam, sprites), sprites.len()), sprites.len(),
                depth, w, h, tick, x, y, base[pixel(w, x, y)]),
        forall|x: int, y: int|
            0 <= x < w && 0 <= y < h ==> #[trigger] out2[pixel(w, x, y)] == group_pixel(
                atlas, mode, cam, sprites, far_to_near(keys_of(cam, sprites), sprites.len()), sprites.len(),
                depth, w, h, tick, x, y, base[pixel(w, x, y)]),
    ensures
        out1 == out2,
{
    assert forall|i: int| 0 <= i < w * h implies out1[i] == out2[i] by {
        let x = i % w;
        let y = i / w;
        vstd::arithmetic::div_mod::lemma_fundamental_div_mod(i, w);
        assert(0 <= y < h) by (nonlinear_arith)
            requires
                i == w * y + x,
                0 <= x < w,
                0 <= i < w * h;
        assert(pixel(w, x, y) == i) by (nonlinear_arith)
            requires
                i == w * y + x;
        assert(out1[pixel(w, x, y)] == out2[pixel(w, x, y)]);
    }
    assert(out1 =~= out2);
}

/// Back to front: of two opaque sprites at different distances, in either
/// list order, the nearer one's texel is what a pixel shows wherever the
/// nearer sprite draws a non-transparent texel.
pub proof fn lemma_nearer_sprite_wins(
    atlas: Atlas,
    cam: Camera,
    far: Sprite,
    near: Sprite,
    depth: Seq<i64>,
    w: int,
    h: int,
    tick: int,
    x: int,
    y: int,
    base: u32,
)
    requires
        dist_key(cam, far) > dist_key(cam, near),
        covers(project(cam, near, w, h), depth, w, h, x, y),
        atlas.texel(near.texture as int, sprite_texel_index(atlas, Blend::Opaque, project(cam, near, w, h), h, x, y)) != 0,
    ensures
        group_pixel(atlas, Blend::Opaque, cam, seq![far, near], far_to_near(keys_of(cam, seq![far, near]), 2), 2,
            depth, w, h, tick, x, y, base)
            == atlas.texel(near.texture as int, sprite_texel_index(atlas, Blend::Opaque, project(cam, near, w, h), h, x, y)),
        group_pixel(atlas, Blend::Opaque, cam, seq![near, far], far_to_near(keys_of(cam, seq![near, far]), 2), 2,
            depth, w, h, tick, x, y, base)
            == atlas.texel(near.texture as int, sprite_texel_index(atlas, Blend::Opaque, project(cam, near, w, h), h, x, y)),
{
    reveal_with_fuel(far_to_near, 3);
    reveal_with_fuel(first_nearer, 3);
    reveal_with_fuel(group_pixel, 3);
    let k1 = keys_of(cam, seq![far, near]);
    assert(k1[0] == dist_key(cam, far) && k1[1] == dist_key(cam, near));
    let o1 = far_to_near(k1, 1);
    assert(o1 == seq![0usize]) by {
        assert(far_to_near(k1, 0) == Seq::<usize>::empty());
        assert(Seq::<usize>::empty().insert(0, 0usize) =~= seq![0usize]);
    }
    assert(first_nearer(k1, o1, 0, k1[1]) == 1);
    assert(far_to_near(k1, 2) =~= seq![0usize, 1usize]);
    let k2 = keys_of(cam, seq![near, far]);
    assert(k2[0] == dist_key(cam, near) && k2[1] == dist_key(cam, far));
    let o2 = far_to_near(k2, 1);
    assert(o2 == seq![0usize]) by {
        assert(far_to_near(k2, 0) == Seq::<usize>::empty());
        assert(Seq::<usize>::empty().insert(0, 0usize) =~= seq![0usize]);
    }
    assert(first_nearer(k2, o2, 0, k2[1]) == 0);
    assert(far_to_near(k2, 2) =~= seq![1usize, 0usize]);
}

/// Whether a sprite group can be drawn on a `w` by `h` screen (`group_ok`),
/// for groups that come from outside.
pub fn check_group(atlas: &Atlas, mode: Blend, sprites: &Vec<Sprite>, w: usize, h: usize) -> (r: bool)
    ensures
        r == group_ok(*atlas, mode, sprites@, w as int, h as int),
{
    if !atlas.check() {
        return false;
    }
    let bpp_ok = match mode {
        Blend::Opaque => atlas.bytes_per_pixel == 3,
        _ => atlas.bytes_per_pixel == 4,
    };
    if !bpp_ok {
        return false;
    }
    if mode == Blend::PortalMapped && !(atlas.width >= w && atlas.height >= h) {
        return false;
    }
    let mut i: usize = 0;
    while i < sprites.len()
        invariant
            i <= sprites@.len(),
            forall|k: int| 0 <= k < i ==> (#[trigger] sprites@[k]).wf() && sprites@[k].texture < atlas.textures@.len(),
        decreases sprites@.len() - i,
    {
        let s = sprites[i];
        if !(0 <= s.x && s.x < MAX_CELLS * UNIT && 0 <= s.y && s.y < MAX_CELLS * UNIT && s.texture < atlas.textures.len()) {
            return false;
        }
        i += 1;
    }
    true
}

/// Advances every sprite to the next of `frames` animation textures,
/// wrapping to the first.
pub fn animate(sprites: &mut Vec<Sprite>, frames: usize)
    ensures
        final(sprites)@.len() == old(sprites)@.len(),
        forall|i: int| 0 <= i < final(sprites)@.len() ==> #[trigger] final(sprites)@[i] == (Sprite {
            texture: if old(sprites)@[i].texture + 1 < frames { (old(sprites)@[i].texture + 1) as usize } else { 0 },
            ..old(sprites)@[i]
        }),
{
    let mut i: usize = 0;
    while i < sprites.len()
        invariant
            sprites@.len() == old(sprites)@.len(),
            i <= sprites@.len(),
            forall|k: int| 0 <= k < i ==> #[trigger] sprites@[k] == (Sprite {
                texture: if old(sprites)@[k].texture + 1 < frames { (old(sprites)@[k].texture + 1) as usize } else { 0 },
                ..old(sprites)@[k]
            }),
            forall|k: int| i <= k < sprites@.len() ==> #[trigger] sprites@[k] == old(sprites)@[k],
        decreases sprites@.len() - i,
    {
        let s = sprites[i];
        let next = if s.texture < usize::MAX && s.texture + 1 < frames { s.texture + 1 } else { 0 };
        sprites.set(i, Sprite { texture: next, ..s });
        i += 1;
    }
}

/// Sprite `a` is drawn before sprite `b`: it is farther, or as far and
/// earlier in the list.
pub open spec fn drawn_before(keys: Seq<int>, a: int, b: int) -> bool {
    keys[a] > keys[b] || (keys[a] == keys[b] && a < b)
}

proof fn lemma_first_nearer_props(keys: Seq<int>, o: Seq<usize>, k: int, key: int)
    requires
        0 <= k <= o.len(),
    ensures
        k <= first_nearer(keys, o, k, key) <= o.len(),
        forall|q: int| k <= q < first_nearer(keys, o, k, key) ==> keys[#[trigger] o[q] as int] >= key,
        first_nearer(keys, o, k, key) < o.len() ==> keys[o[first_nearer(keys, o, k, key)] as int] < key,
    decreases o.len() - k,
{
    if k < o.len() && !(keys[o[k] as int] < key) {
        lemma_first_nearer_props(keys, o, k + 1, key);
    }
}

/// The drawing order lists each of the `n` sprites exactly once, farthest
/// first, sprites at equal distance in list order.
pub proof fn lemma_far_to_near_sorted(keys: Seq<int>, n: nat)
    requires
        n <= keys.len(),
        n <= usize::MAX,
    ensures
        far_to_near(keys, n).len() == n,
        forall|a: int, b: int|
            0 <= a < b < n ==> drawn_before(keys, #[trigger] far_to_near(keys, n)[a] as int, #[trigger] far_to_near(keys, n)[b] as int),
        forall|i: int| 0 <= i < n ==> #[trigger] far_to_near(keys, n).contains(i as usize),
    decreases n,
{
    lemma_far_to_near_len(keys, n);
    if n > 0 {
        let m = (n - 1) as nat;
        let o = far_to_near(keys, m);
        let kn = keys[m as int];
        lemma_far_to_near_sorted(keys, m);
        lemma_far_to_near_len(keys, m);
        lemma_first_nearer_props(keys, o, 0, kn);
        let p = first_nearer(keys, o, 0, kn);
        let o2 = far_to_near(keys, n);
        assert(o2 == o.insert(p, m as usize));
        assert forall|q: int| p <= q < o.len() implies keys[#[trigger] o[q] as int] < kn by {
            if q > p {
                assert(drawn_before(keys, o[p] as int, o[q] as int));
            }
        }
        assert forall|a: int, b: int| 0 <= a < b < n implies drawn_before(keys, #[trigger] o2[a] as int, #[trigger] o2[b] as int) by {
            if a < p && b < p {
                assert(o2[a] == o[a] && o2[b] == o[b]);
            } else if a < p && b == p {
                assert(o2[a] == o[a] && o2[b] == m as usize);
                assert(keys[o[a] as int] >= kn);
            } else if a < p && b > p {
                assert(o2[a] == o[a] && o2[b] == o[b - 1]);
            } else if a == p {
                assert(o2[a] == m as usize && o2[b] == o[b - 1]);
                assert(keys[o[b - 1] as int] < kn);
            } else {
                assert(o2[a] == o[a - 1] && o2[b] == o[b - 1]);
            }
        }
        assert forall|i: int| 0 <= i < n implies #[trigger] o2.contains(i as usize) by {
            if i == m {
                assert(o2[p] == m as usize);
            } else {
                assert(o.contains(i as usize));
                let q = choose|q: int| 0 <= q < o.len() && o[q] == i as usize;
                if q < p {
                    assert(o2[q] == o[q]);
                } else {
                    assert(o2[q + 1] == o[q]);
                }
            }
        }
    }
}

} // verus!
