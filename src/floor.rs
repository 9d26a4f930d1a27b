use vstd::prelude::*;
use crate::fixed::{UNIT, floor_div, floor_mod};
use crate::camera::{Camera, abs};
use crate::screen::{Atlas, pixel, lemma_pixel_in, lemma_pixel_distinct};
use crate::walls::{column_ray, column_dir, screen_ok};

verus! {

/// Halves each channel of a packed colour: a flat ambient darkening.
pub open spec fn darken(c: u32) -> u32 {
    (c >> 1u32) & 0x7f7f7fu32
}

/// Source row of screen row `y`: rows below the horizon are floor rows and
/// use their own distance; rows above mirror the floor row `h - y - 1`.
pub open spec fn source_row(h: int, y: int) -> int {
    if 2 * y >= h { y } else { h - 1 - y }
}

/// Distance (fixed point) from the camera to the floor seen in row `y`,
/// `(h/2) / (y - h/2)`; the horizon row counts as the farthest row.
pub open spec fn row_dist(h: int, y: int) -> int {
    h * UNIT / (if 2 * y - h > 0 { 2 * y - h } else { 1 })
}

/// World coordinate (fixed point) where the ray with scaled direction `d`
/// meets the floor at distance `rd`.
pub open spec fn floor_coord(pos: int, rd: int, d: int, w: int) -> int {
    pos + rd * d / (w * UNIT)
}

/// Texture coordinate of world coordinate `v` on a texture `size` texels
/// wide: only the fractional part of `v` counts, so the texture repeats
/// once per cell.
pub open spec fn tex_coord(v: int, size: int) -> int {
    (v % (UNIT as int)) * size / (UNIT as int)
}

/// The colour of pixel `(x, y)` after the floor and ceiling pass.
pub open spec fn flat_pixel(atlas: Atlas, floor_tex: int, ceil_tex: int, cam: Camera, w: int, h: int, x: int, y: int) -> u32 {
    let rd = row_dist(h, source_row(h, y));
    let r = column_ray(cam, w, x, 0);
    let tx = tex_coord(floor_coord(cam.pos_x as int, rd, r.dx, w), atlas.width as int);
    let ty = tex_coord(floor_coord(cam.pos_y as int, rd, r.dy, w), atlas.height as int);
    let t = if 2 * y >= h { floor_tex } else { ceil_tex };
    darken(atlas.texel(t, tx + ty * atlas.width))
}

/// Sampling the floor texture at `k + f` cells gives the texel of `f`.
pub proof fn lemma_tex_coord_wraps(k: int, f: int, size: int)
    requires
        0 <= f < UNIT,
    ensures
        tex_coord(k * UNIT + f, size) == tex_coord(f, size),
{
    vstd::arithmetic::div_mod::lemma_mod_multiples_vanish(k, f, UNIT as int);
    vstd::arithmetic::div_mod::lemma_small_mod(f as nat, UNIT as nat);
}

fn texture_coord(v: i128, size: usize) -> (r: usize)
    requires
        1 <= size <= 1024,
    ensures
        r == tex_coord(v as int, size as int),
        r < size,
{
    let f = floor_mod(v, UNIT as i128);
    assert(f * size <= 1024 * 1024) by (nonlinear_arith)
        requires 0 <= f < 1024, 1 <= size <= 1024;
    assert(f * size / 1024 < size) by (nonlinear_arith)
        requires 0 <= f < 1024, 1 <= size <= 1024;
    (f as usize) * size / (UNIT as usize)
}

fn darken_color(c: u32) -> (r: u32)
    ensures
        r == darken(c),
{
    (c >> 1u32) & 0x7f7f7fu32
}

/// Fills every pixel with the darkened floor texture (rows below the
/// horizon) or ceiling texture (rows above), sampled where each pixel's ray
/// meets the floor.  World coordinates advance across a row by a constant
/// step.
pub fn render_floor_ceiling(
    atlas: &Atlas,
    floor_tex: usize,
    ceil_tex: usize,
    color: &mut Vec<u32>,
    w: usize,
    h: usize,
    cam: &Camera,
)
    requires
        atlas.wf(),
        atlas.bytes_per_pixel == 3,
        floor_tex < atlas.textures@.len(),
        ceil_tex < atlas.textures@.len(),
        cam.wf(),
        screen_ok(w as int, h as int),
        old(color)@.len() == w * h,
    ensures
        final(color)@.len() == w * h,
        forall|x: int, y: int|
            0 <= x < w && 0 <= y < h ==> #[trigger] final(color)@[pixel(w as int, x, y)] == flat_pixel(
                *atlas, floor_tex as int, ceil_tex as int, *cam, w as int, h as int, x, y),
{
    let ghost c0 = color@;
    let hi = h as i64;
    let wi = w as i64;
    let mut y: usize = 0;
    while y < h
        invariant
            atlas.wf(),
            atlas.bytes_per_pixel == 3,
            floor_tex < atlas.textures@.len(),
            ceil_tex < atlas.textures@.len(),
            cam.wf(),
            screen_ok(w as int, h as int),
            hi == h,
            wi == w,
            y <= h,
            color@.len() == w * h,
            forall|cx: int, cy: int|
                0 <= cx < w && 0 <= cy < h ==> #[trigger] color@[pixel(w as int, cx, cy)] == if cy < y {
                    flat_pixel(*atlas, floor_tex as int, ceil_tex as int, *cam, w as int, h as int, cx, cy)
                } else {
                    c0[pixel(w as int, cx, cy)]
                },
        decreases h - y,
    {
        let yi = y as i64;
        let src: i64 = if 2 * yi >= hi { yi } else { hi - 1 - yi };
        let den: i64 = if 2 * src - hi > 0 { 2 * src - hi } else { 1 };
        let rd: i64 = hi * UNIT / den;
        assert(rd <= hi * UNIT) by {
            vstd::arithmetic::div_mod::lemma_div_is_ordered_by_denominator(hi * UNIT, 1, den as int);
        }
        let tex = if 2 * yi >= hi { floor_tex } else { ceil_tex };
        assert(rd == row_dist(h as int, source_row(h as int, y as int)));
        let (dx0, dy0) = column_dir(cam, w, 0);
        assert(rd * dx0 <= 0x200000 * 0x1000000 && rd * dx0 >= -0x200000 * 0x1000000) by (nonlinear_arith)
            requires 0 <= rd <= 0x200000, abs(dx0 as int) <= 0x1000000;
        assert(rd * dy0 <= 0x200000 * 0x1000000 && rd * dy0 >= -0x200000 * 0x1000000) by (nonlinear_arith)
            requires 0 <= rd <= 0x200000, abs(dy0 as int) <= 0x1000000;
        assert(abs(rd * 2 * cam.plane_x) <= 0x200000 * 4096 && abs(rd * 2 * cam.plane_y) <= 0x200000 * 4096)
            by (nonlinear_arith)
            requires 0 <= rd <= 0x200000, abs(cam.plane_x as int) <= 2048, abs(cam.plane_y as int) <= 2048;
        let step_x: i64 = rd * 2 * cam.plane_x;
        let step_y: i64 = rd * 2 * cam.plane_y;
        let mut nx: i64 = rd * dx0;
        let mut ny: i64 = rd * dy0;
        let wu: i128 = (w as i128) * 1024;
        let mut x: usize = 0;
        while x < w
            invariant
                atlas.wf(),
                atlas.bytes_per_pixel == 3,
                tex < atlas.textures@.len(),
                tex == (if 2 * y >= h { floor_tex } else { ceil_tex }),
                cam.wf(),
                screen_ok(w as int, h as int),
                y < h,
                x <= w,
                wi == w,
                wu == w * UNIT,
                0 <= rd <= 0x200000,
                rd == row_dist(h as int, source_row(h as int, y as int)),
                step_x == rd * 2 * cam.plane_x,
                step_y == rd * 2 * cam.plane_y,
                abs(step_x as int) <= 0x200000 * 4096,
                abs(step_y as int) <= 0x200000 * 4096,
                x < w ==> nx == rd * column_ray(*cam, w as int, x as int, 0).dx,
                x < w ==> ny == rd * column_ray(*cam, w as int, x as int, 0).dy,
                color@.len() == w * h,
                forall|cx: int, cy: int|
                    0 <= cx < w && 0 <= cy < h ==> #[trigger] color@[pixel(w as int, cx, cy)] == if cy < y || (cy == y && cx < x) {
                        flat_pixel(*atlas, floor_tex as int, ceil_tex as int, *cam, w as int, h as int, cx, cy)
                    } else {
                        c0[pixel(w as int, cx, cy)]
                    },
            decreases w - x,
        {
            proof {
                crate::walls::lemma_column_dir_bounds(*cam, w as int, x as int);
            }
            let tx = texture_coord(cam.pos_x as i128 + floor_div(nx as i128, wu), atlas.width);
            let ty = texture_coord(cam.pos_y as i128 + floor_div(ny as i128, wu), atlas.height);
            assert(tx + ty * atlas.width < atlas.width * atlas.height) by (nonlinear_arith)
                requires tx < atlas.width, ty < atlas.height;
            assert(atlas.width * atlas.height <= 1024 * 1024) by (nonlinear_arith)
                requires atlas.width <= 1024, atlas.height <= 1024;
            assert(w * h <= 2048 * 2048) by (nonlinear_arith)
                requires w <= 2048, h <= 2048;
            let c = darken_color(atlas.read_texel(tex, tx + ty * atlas.width));
            proof {
                lemma_pixel_in(w as int, h as int, x as int, y as int);
            }
            let ghost prev = color@;
            color.set(y * w + x, c);
            proof {
                assert forall|cx: int, cy: int| 0 <= cx < w && 0 <= cy < h implies #[trigger] color@[pixel(w as int, cx, cy)]
                    == if cy < y || (cy == y && cx < x + 1) {
                        flat_pixel(*atlas, floor_tex as int, ceil_tex as int, *cam, w as int, h as int, cx, cy)
                    } else {
                        c0[pixel(w as int, cx, cy)]
                    } by {
                    lemma_pixel_in(w as int, h as int, cx, cy);
                    if cx != x || cy != y {
                        lemma_pixel_distinct(w as int, cx, cy, x as int, y as int);
                        assert(color@[pixel(w as int, cx, cy)] == prev[pixel(w as int, cx, cy)]);
                    }
                }
                let r0 = column_ray(*cam, w as int, x as int, 0);
                let r1 = column_ray(*cam, w as int, x + 1, 0);
                assert(r1.dx == r0.dx + 2 * cam.plane_x) by (nonlinear_arith)
                    requires
                        r0.dx == cam.dir_x * w + cam.plane_x * (2 * x - w),
                        r1.dx == cam.dir_x * w + cam.plane_x * (2 * (x + 1) - w);
                assert(r1.dy == r0.dy + 2 * cam.plane_y) by (nonlinear_arith)
                    requires
                        r0.dy == cam.dir_y * w + cam.plane_y * (2 * x - w),
                        r1.dy == cam.dir_y * w + cam.plane_y * (2 * (x + 1) - w);
                assert(rd * r1.dx == rd * r0.dx + rd * 2 * cam.plane_x) by (nonlinear_arith)
                    requires r1.dx == r0.dx + 2 * cam.plane_x;
                assert(rd * r1.dy == rd * r0.dy + rd * 2 * cam.plane_y) by (nonlinear_arith)
                    requires r1.dy == r0.dy + 2 * cam.plane_y;
                if x + 1 < w {
                    crate::walls::lemma_column_dir_bounds(*cam, w as int, x + 1);
                    assert(abs(rd * r1.dx) <= 0x200000 * 0x1000000) by (nonlinear_arith)
                        requires 0 <= rd <= 0x200000, abs(r1.dx) <= 0x1000000;
                    assert(abs(rd * r1.dy) <= 0x200000 * 0x1000000) by (nonlinear_arith)
                        requires 0 <= rd <= 0x200000, abs(r1.dy) <= 0x1000000;
                }
            }
            if x + 1 < w {
                nx = nx + step_x;
                ny = ny + step_y;
            }
            x += 1;
        }
        y += 1;
    }
}

} // verus!
