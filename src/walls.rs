use vstd::prelude::*;
use crate::fixed::{UNIT, MAX_CELLS, MAX_SCREEN, POS_MARGIN, floor_div, floor_mod};
use crate::grid::{grid_wf, in_grid, cell, materials_within};
use crate::camera::{Camera, abs};
use crate::screen::{Atlas, pixel, lemma_pixel_in, lemma_pixel_distinct};

verus! {

/// Largest start distance of a wall cast (fixed point).
pub const MAX_START: i64 = 524288;

/// The ray of one screen column, scaled by `width * UNIT`: its direction is
/// `direction + plane * (2x / width - 1)`.
pub struct RayModel {
    pub dx: int,
    pub dy: int,
    pub width: int,
    pub start: int,
}

/// A state of the grid walk: the current cell, the ray lengths (times
/// `UNIT`, along each axis) to the next vertical and horizontal grid line,
/// and the axis of the last step (0 for x, 1 for y).
pub struct WalkModel {
    pub map_x: int,
    pub map_y: int,
    pub side_x: int,
    pub side_y: int,
    pub side: int,
}

pub open spec fn column_ray(cam: Camera, w: int, x: int, start: int) -> RayModel {
    RayModel {
        dx: cam.dir_x * w + cam.plane_x * (2 * x - w),
        dy: cam.dir_y * w + cam.plane_y * (2 * x - w),
        width: w,
        start,
    }
}

pub open spec fn step_of(d: int) -> int {
    if d < 0 { -1 } else { 1 }
}

/// Distance along one axis from `pos` to the first grid line in direction `d`.
pub open spec fn first_gap(pos: int, d: int) -> int {
    if d < 0 { pos - (pos / (UNIT as int)) * UNIT } else { (pos / (UNIT as int) + 1) * UNIT - pos }
}

pub open spec fn walk_start(cam: Camera, r: RayModel) -> WalkModel {
    WalkModel {
        map_x: cam.pos_x / UNIT,
        map_y: cam.pos_y / UNIT,
        side_x: first_gap(cam.pos_x as int, r.dx),
        side_y: first_gap(cam.pos_y as int, r.dy),
        side: 0,
    }
}

/// One DDA step: cross the nearer of the two next grid lines.
pub open spec fn advance(r: RayModel, s: WalkModel) -> WalkModel {
    if s.side_x * abs(r.dy) < s.side_y * abs(r.dx) {
        WalkModel { map_x: s.map_x + step_of(r.dx), side_x: s.side_x + UNIT, side: 0, ..s }
    } else {
        WalkModel { map_y: s.map_y + step_of(r.dy), side_y: s.side_y + UNIT, side: 1, ..s }
    }
}

/// Cells are only tested when the ray enters them at least `start` away
/// from the camera (so a view through a portal skips what lies before the
/// portal).  The ray enters a cell where it crosses the grid line just
/// behind it: `a` along the crossed axis, so `a * |ray| / |d|` along the
/// ray, compared squared.
pub open spec fn past_start(r: RayModel, s: WalkModel) -> bool {
    let a = if s.side == 0 { s.side_x - UNIT } else { s.side_y - UNIT };
    let d = if s.side == 0 { r.dx } else { r.dy };
    r.start <= 0 || a * a * (r.dx * r.dx + r.dy * r.dy) >= r.start * r.start * (d * d)
}

pub open spec fn remaining(r: RayModel, s: WalkModel) -> int {
    (if r.dx < 0 { s.map_x + 1 } else { MAX_CELLS - s.map_x }) + (if r.dy < 0 {
        s.map_y + 1
    } else {
        MAX_CELLS - s.map_y
    })
}

/// The walk from `s` on: the first wall cell entered past the start
/// distance, or `None` when the ray leaves the grid first.
pub open spec fn trace(g: Seq<Vec<u8>>, r: RayModel, s: WalkModel) -> Option<WalkModel>
    decreases remaining(r, s),
{
    let n = advance(r, s);
    if !in_grid(g, n.map_x, n.map_y) {
        None
    } else if cell(g, n.map_x, n.map_y) > 0 && past_start(r, n) {
        Some(n)
    } else {
        trace(g, r, n)
    }
}

pub open spec fn column_hit(g: Seq<Vec<u8>>, cam: Camera, w: int, x: int, start: int) -> Option<WalkModel> {
    let r = column_ray(cam, w, x, start);
    trace(g, r, walk_start(cam, r))
}

/// Perpendicular distance (fixed point) from the camera plane to the face
/// of the hit cell: `(cell - pos + (1 - step) / 2) / ray`, no fisheye.
pub open spec fn perp_dist(cam: Camera, r: RayModel, hit: WalkModel) -> int {
    if hit.side == 0 {
        abs((hit.map_x * UNIT + (if r.dx < 0 { UNIT } else { 0 }) - cam.pos_x) * r.width * UNIT) / abs(r.dx)
    } else {
        abs((hit.map_y * UNIT + (if r.dy < 0 { UNIT } else { 0 }) - cam.pos_y) * r.width * UNIT) / abs(r.dy)
    }
}

/// Height in pixels of a wall slice at distance `perp` (a zero distance
/// counts as the smallest positive one).
pub open spec fn line_height(h: int, perp: int) -> int {
    h * UNIT / (if perp > 0 { perp } else { 1 })
}

/// First row of the unclipped slice.
pub open spec fn slice_top(h: int, lh: int) -> int {
    h / 2 - lh / 2
}

/// Rows drawn: `[h/2 - lh/2, h/2 + lh/2)` clipped to `[0, h)`.
pub open spec fn in_slice(h: int, lh: int, y: int) -> bool {
    0 <= y < h && slice_top(h, lh) <= y < h / 2 + lh / 2
}

/// Texture column of the hit: the fractional hit coordinate along the face,
/// mirrored where needed so that adjacent faces continue each other.
pub open spec fn wall_u(cam: Camera, r: RayModel, hit: WalkModel, tw: int) -> int {
    let perp = perp_dist(cam, r, hit);
    let along = if hit.side == 0 {
        cam.pos_y + perp * r.dy / (r.width * UNIT)
    } else {
        cam.pos_x + perp * r.dx / (r.width * UNIT)
    };
    let u = (along % (UNIT as int)) * tw / (UNIT as int);
    if (hit.side == 0 && r.dx > 0) || (hit.side == 1 && r.dy < 0) {
        tw - u - 1
    } else {
        u
    }
}

/// Texture row of screen row `y`, interpolated over the unclipped slice.
pub open spec fn wall_v(h: int, lh: int, y: int, th: int) -> int {
    (y - slice_top(h, lh)) * th / lh
}

/// The colour that the wall caster leaves at pixel `(x, y)` over `old`.
pub open spec fn wall_pixel(
    atlas: Atlas,
    g: Seq<Vec<u8>>,
    cam: Camera,
    w: int,
    h: int,
    start: int,
    x: int,
    y: int,
    old: u32,
) -> u32 {
    match column_hit(g, cam, w, x, start) {
        Some(hit) => {
            let r = column_ray(cam, w, x, start);
            let lh = line_height(h, perp_dist(cam, r, hit));
            if in_slice(h, lh, y) {
                let u = wall_u(cam, r, hit, atlas.width as int);
                let v = wall_v(h, lh, y, atlas.height as int);
                atlas.texel(cell(g, hit.map_x, hit.map_y) - 1, u + v * atlas.width)
            } else {
                old
            }
        },
        None => old,
    }
}

/// The depth that the wall caster leaves in column `x` over `old`.
pub open spec fn wall_depth(g: Seq<Vec<u8>>, cam: Camera, w: int, x: int, start: int, old: i64) -> int {
    match column_hit(g, cam, w, x, start) {
        Some(hit) => perp_dist(cam, column_ray(cam, w, x, start), hit),
        None => old as int,
    }
}

/// An exec walk state.
pub struct Walk {
    pub map_x: i64,
    pub map_y: i64,
    pub side_x: i64,
    pub side_y: i64,
    pub side: u8,
}

impl Walk {
    pub open spec fn view(&self) -> WalkModel {
        WalkModel {
            map_x: self.map_x as int,
            map_y: self.map_y as int,
            side_x: self.side_x as int,
            side_y: self.side_y as int,
            side: self.side as int,
        }
    }
}

pub open spec fn screen_ok(w: int, h: int) -> bool {
    1 <= w <= MAX_SCREEN && 1 <= h <= MAX_SCREEN
}

pub proof fn lemma_column_dir_bounds(cam: Camera, w: int, x: int)
    requires
        cam.wf(),
        1 <= w <= MAX_SCREEN,
        0 <= x < w,
    ensures
        abs(column_ray(cam, w, x, 0).dx) <= 0x1000000,
        abs(column_ray(cam, w, x, 0).dy) <= 0x1000000,
{
    lemma_ray_bounds(cam, w, x);
}

proof fn lemma_ray_bounds(cam: Camera, w: int, x: int)
    requires
        cam.wf(),
        1 <= w <= MAX_SCREEN,
        0 <= x < w,
    ensures
        abs(column_ray(cam, w, x, 0).dx) <= 0x1000000,
        abs(column_ray(cam, w, x, 0).dy) <= 0x1000000,
        column_ray(cam, w, x, 0).dx != 0 || column_ray(cam, w, x, 0).dy != 0,
        abs(cam.dir_x * w) <= 2048 * 2048,
        abs(cam.dir_y * w) <= 2048 * 2048,
        abs(cam.plane_x * (2 * x - w)) <= 2048 * 2048,
        abs(cam.plane_y * (2 * x - w)) <= 2048 * 2048,
{
    let k = 2 * x - w;
    assert(abs(cam.dir_x * w) <= 2048 * 2048) by (nonlinear_arith)
        requires abs(cam.dir_x as int) <= 2048, 1 <= w <= 2048;
    assert(abs(cam.dir_y * w) <= 2048 * 2048) by (nonlinear_arith)
        requires abs(cam.dir_y as int) <= 2048, 1 <= w <= 2048;
    assert(abs(cam.plane_x * k) <= 2048 * 2048) by (nonlinear_arith)
        requires abs(cam.plane_x as int) <= 2048, -2048 <= k <= 2048;
    assert(abs(cam.plane_y * k) <= 2048 * 2048) by (nonlinear_arith)
        requires abs(cam.plane_y as int) <= 2048, -2048 <= k <= 2048;
    let dx = cam.dir_x * w + cam.plane_x * k;
    let dy = cam.dir_y * w + cam.plane_y * k;
    if dx == 0 && dy == 0 {
        assert(cam.det() * w == cam.plane_x * (cam.dir_y * w) - (cam.dir_x * w) * cam.plane_y)
            by (nonlinear_arith);
        assert(cam.plane_x * (cam.dir_y * w) - (cam.dir_x * w) * cam.plane_y == 0) by (nonlinear_arith)
            requires
                cam.dir_x * w == -(cam.plane_x * k),
                cam.dir_y * w == -(cam.plane_y * k);
        assert(cam.det() * w != 0) by (nonlinear_arith)
            requires cam.det() != 0, w >= 1;
    }
}

fn iabs(v: i64) -> (r: i64)
    requires
        v > i64::MIN,
    ensures
        r == abs(v as int),
{
    if v < 0 { -v } else { v }
}

/// The first grid line on one axis from `pos`: the cell and the distance.
fn first_line(pos: i64, d: i64) -> (r: (i64, i64))
    requires
        -POS_MARGIN <= pos < MAX_CELLS * UNIT + POS_MARGIN,
    ensures
        r.0 == pos / UNIT,
        r.1 == first_gap(pos as int, d as int),
        -8 <= r.0 < MAX_CELLS + 8,
        0 <= r.1 <= UNIT,
        d >= 0 ==> r.1 > 0,
{
    let m = floor_div(pos as i128, UNIT as i128) as i64;
    assert(-8 <= m < MAX_CELLS + 8) by {
        vstd::arithmetic::div_mod::lemma_fundamental_div_mod(pos as int, 1024);
    }
    if d < 0 { (m, pos - m * UNIT) } else { (m, (m + 1) * UNIT - pos) }
}

/// Direction of the ray of column `x`, scaled by `w * UNIT`.
pub fn column_dir(cam: &Camera, w: usize, x: usize) -> (r: (i64, i64))
    requires
        cam.wf(),
        1 <= w <= MAX_SCREEN,
        x < w,
    ensures
        r.0 == column_ray(*cam, w as int, x as int, 0).dx,
        r.1 == column_ray(*cam, w as int, x as int, 0).dy,
        abs(r.0 as int) <= 0x1000000,
        abs(r.1 as int) <= 0x1000000,
        r.0 != 0 || r.1 != 0,
{
    proof {
        lemma_ray_bounds(*cam, w as int, x as int);
    }
    let wi = w as i64;
    let k = 2 * (x as i64) - wi;
    (cam.dir_x * wi + cam.plane_x * k, cam.dir_y * wi + cam.plane_y * k)
}

/// `past_start` on an exec walk state.
fn passes_start(dx: i64, dy: i64, start: i64, side: u8, side_x: i64, side_y: i64) -> (r: bool)
    requires
        0 <= start <= MAX_START,
        abs(dx as int) <= 0x1000000,
        abs(dy as int) <= 0x1000000,
        0 <= side_x <= 286720,
        0 <= side_y <= 286720,
    ensures
        r == past_start(
            RayModel { dx: dx as int, dy: dy as int, width: 0, start: start as int },
            WalkModel { map_x: 0, map_y: 0, side_x: side_x as int, side_y: side_y as int, side: side as int },
        ),
{
    if start <= 0 {
        return true;
    }
    let a: i128 = if side == 0 { side_x as i128 - 1024 } else { side_y as i128 - 1024 };
    let d: i128 = if side == 0 { dx as i128 } else { dy as i128 };
    let (x, y, s) = (dx as i128, dy as i128, start as i128);
    assert(x * x <= 0x1000000000000 && y * y <= 0x1000000000000 && d * d <= 0x1000000000000 && x * x >= 0 && y * y >= 0
        && d * d >= 0) by (nonlinear_arith)
        requires abs(x as int) <= 0x1000000, abs(y as int) <= 0x1000000, d == x || d == y;
    assert(a * a <= 0x100000000000 && a * a >= 0) by (nonlinear_arith)
        requires -1024 <= a <= 286720;
    assert(s * s <= 0x4000000000 && s * s >= 0) by (nonlinear_arith)
        requires 0 <= s <= 524288;
    let n = x * x + y * y;
    assert(a * a * n <= 0x100000000000 * 0x2000000000000) by (nonlinear_arith)
        requires 0 <= a * a <= 0x100000000000, 0 <= n <= 0x2000000000000;
    assert(a * a * n >= 0) by (nonlinear_arith)
        requires 0 <= a * a, 0 <= n;
    assert(s * s * (d * d) <= 0x4000000000 * 0x1000000000000) by (nonlinear_arith)
        requires 0 <= s * s <= 0x4000000000, 0 <= d * d <= 0x1000000000000;
    assert(s * s * (d * d) >= 0) by (nonlinear_arith)
        requires 0 <= s * s, 0 <= d * d;
    a * a * n >= s * s * (d * d)
}

/// Walks the ray of screen column `x` through the grid (DDA): the first
/// wall cell entered past `start`, or `None` when the ray leaves the grid.
pub fn cast_column(g: &Vec<Vec<u8>>, cam: &Camera, w: usize, x: usize, start: i64) -> (r: Option<Walk>)
    requires
        grid_wf(g@),
        cam.wf(),
        1 <= w <= MAX_SCREEN,
        x < w,
        0 <= start <= MAX_START,
    ensures
        match r {
            Some(k) => column_hit(g@, *cam, w as int, x as int, start as int) == Some(k@),
            None => column_hit(g@, *cam, w as int, x as int, start as int) is None,
        },
{
    let ghost rm = column_ray(*cam, w as int, x as int, start as int);
    proof {
        lemma_ray_bounds(*cam, w as int, x as int);
    }
    let wi = w as i64;
    let (dx, dy) = column_dir(cam, w, x);
    let adx = iabs(dx);
    let ady = iabs(dy);
    let (mx0, gx) = first_line(cam.pos_x, dx);
    let (my0, gy) = first_line(cam.pos_y, dy);
    let mut st = Walk { map_x: mx0, map_y: my0, side_x: gx, side_y: gy, side: 0 };
    assert(st@ == walk_start(*cam, rm));
    loop
        invariant
            grid_wf(g@),
            rm == column_ray(*cam, w as int, x as int, start as int),
            dx == rm.dx,
            dy == rm.dy,
            adx == abs(dx as int),
            ady == abs(dy as int),
            adx <= 0x1000000,
            ady <= 0x1000000,
            dx != 0 || dy != 0,
            0 <= start <= MAX_START,
            1 <= wi <= MAX_SCREEN,
            wi == w,
            -8 <= mx0 < MAX_CELLS + 8,
            -8 <= my0 < MAX_CELLS + 8,
            0 <= gx <= UNIT,
            0 <= gy <= UNIT,
            dx >= 0 ==> gx > 0,
            dy >= 0 ==> gy > 0,
            -8 <= st.map_x < MAX_CELLS + 8,
            -8 <= st.map_y < MAX_CELLS + 8,
            st.side_x == gx + UNIT * (if dx < 0 { mx0 - st.map_x } else { st.map_x - mx0 }),
            st.side_y == gy + UNIT * (if dy < 0 { my0 - st.map_y } else { st.map_y - my0 }),
            0 <= (if dx < 0 { mx0 - st.map_x } else { st.map_x - mx0 }),
            0 <= (if dy < 0 { my0 - st.map_y } else { st.map_y - my0 }),
            trace(g@, rm, walk_start(*cam, rm)) == trace(g@, rm, st@),
        decreases remaining(rm, st@) + 32,
    {
        let ghost before = st@;
        assert(st.side_x * ady <= 286720 * 0x1000000) by (nonlinear_arith)
            requires 0 <= st.side_x <= 286720, 0 <= ady <= 0x1000000;
        assert(st.side_y * adx <= 286720 * 0x1000000) by (nonlinear_arith)
            requires 0 <= st.side_y <= 286720, 0 <= adx <= 0x1000000;
        if st.side_x * ady < st.side_y * adx {
            st.map_x = if dx < 0 { st.map_x - 1 } else { st.map_x + 1 };
            st.side_x = st.side_x + UNIT;
            st.side = 0;
        } else {
            st.map_y = if dy < 0 { st.map_y - 1 } else { st.map_y + 1 };
            st.side_y = st.side_y + UNIT;
            st.side = 1;
        }
        assert(st@ == advance(rm, before));
        if st.map_x < 0 || st.map_y < 0 || st.map_x as usize >= g.len()
            || st.map_y as usize >= g[st.map_x as usize].len() {
            return None;
        }
        assert(in_grid(g@, st.map_x as int, st.map_y as int));
        let c = g[st.map_x as usize][st.map_y as usize];
        if c > 0 && passes_start(dx, dy, start, st.side, st.side_x, st.side_y) {
            return Some(st);
        }
    }
}

/// What every hit of a walk satisfies: it lies in the grid, is a wall, and
/// the ray is not parallel to the face that it crossed.
pub proof fn lemma_trace_hit(g: Seq<Vec<u8>>, r: RayModel, s: WalkModel)
    requires
        r.dx != 0 || r.dy != 0,
        s.side_x >= 0,
        s.side_y >= 0,
        r.dx == 0 ==> s.side_x > 0,
        r.dy == 0 ==> s.side_y > 0,
    ensures
        trace(g, r, s) matches Some(hit) ==> {
            &&& in_grid(g, hit.map_x, hit.map_y)
            &&& cell(g, hit.map_x, hit.map_y) > 0
            &&& (hit.side == 0 || hit.side == 1)
            &&& (hit.side == 0 ==> r.dx != 0)
            &&& (hit.side == 1 ==> r.dy != 0)
        },
    decreases remaining(r, s),
{
    let n = advance(r, s);
    if s.side_x * abs(r.dy) < s.side_y * abs(r.dx) {
        assert(r.dx != 0) by (nonlinear_arith)
            requires
                s.side_x * abs(r.dy) < s.side_y * abs(r.dx),
                s.side_x >= 0,
                abs(r.dy) >= 0;
    } else if r.dy == 0 {
        assert(s.side_y * abs(r.dx) > 0) by (nonlinear_arith)
            requires
                s.side_y > 0,
                r.dx != 0;
    }
    if in_grid(g, n.map_x, n.map_y) && !(cell(g, n.map_x, n.map_y) > 0 && past_start(r, n)) {
        lemma_trace_hit(g, r, n);
    }
}

/// Perpendicular distance of a hit, as computed for drawing.
fn hit_perp(cam: &Camera, dx: i64, dy: i64, w: usize, hit: &Walk) -> (p: i64)
    requires
        cam.wf(),
        1 <= w <= MAX_SCREEN,
        abs(dx as int) <= 0x1000000,
        abs(dy as int) <= 0x1000000,
        0 <= hit.map_x < MAX_CELLS,
        0 <= hit.map_y < MAX_CELLS,
        hit.side == 0 ==> dx != 0,
        hit.side == 1 ==> dy != 0,
        hit.side == 0 || hit.side == 1,
    ensures
        p == perp_dist(*cam, RayModel { dx: dx as int, dy: dy as int, width: w as int, start: 0 }, hit@),
        0 <= p <= 0x10000000000,
{
    let wi = w as i64;
    let (m, pos, d) = if hit.side == 0 { (hit.map_x, cam.pos_x, dx) } else { (hit.map_y, cam.pos_y, dy) };
    let a = m * UNIT + (if d < 0 { UNIT } else { 0 }) - pos;
    assert(abs(a * wi * UNIT) <= 0x10000000000) by (nonlinear_arith)
        requires
            -270336 <= a <= 271360,
            1 <= wi <= 2048;
    let num = iabs(a * wi * UNIT);
    let q = num / iabs(d);
    assert(q <= num) by {
        vstd::arithmetic::div_mod::lemma_div_is_ordered_by_denominator(num as int, 1, abs(d as int));
    }
    q
}

/// Texture column of a hit at distance `perp`.
fn hit_u(cam: &Camera, dx: i64, dy: i64, w: usize, hit: &Walk, perp: i64, tw: usize) -> (u: usize)
    requires
        cam.wf(),
        1 <= w <= MAX_SCREEN,
        abs(dx as int) <= 0x1000000,
        abs(dy as int) <= 0x1000000,
        0 <= hit.map_x < MAX_CELLS,
        0 <= hit.map_y < MAX_CELLS,
        hit.side == 0 || hit.side == 1,
        perp == perp_dist(*cam, RayModel { dx: dx as int, dy: dy as int, width: w as int, start: 0 }, hit@),
        0 <= perp <= 0x10000000000,
        1 <= tw <= 1024,
    ensures
        u == wall_u(*cam, RayModel { dx: dx as int, dy: dy as int, width: w as int, start: 0 }, hit@, tw as int),
        u < tw,
{
    let ghost r = RayModel { dx: dx as int, dy: dy as int, width: w as int, start: 0 };
    let d: i64 = if hit.side == 0 { dy } else { dx };
    let pos: i64 = if hit.side == 0 { cam.pos_y } else { cam.pos_x };
    assert(abs(perp * d) <= 0x10000000000 * 0x1000000) by (nonlinear_arith)
        requires
            0 <= perp <= 0x10000000000,
            abs(d as int) <= 0x1000000;
    let wu: i128 = (w as i128) * 1024;
    let along = pos as i128 + floor_div(perp as i128 * d as i128, wu);
    let frac = floor_mod(along, UNIT as i128);
    assert(frac * tw <= 1024 * 1024) by (nonlinear_arith)
        requires 0 <= frac < 1024, 1 <= tw <= 1024;
    assert(frac * tw / 1024 < tw) by (nonlinear_arith)
        requires 0 <= frac < 1024, 1 <= tw <= 1024;
    let u = ((frac as usize) * tw / (UNIT as usize)) as usize;
    if (hit.side == 0 && dx > 0) || (hit.side == 1 && dy < 0) {
        tw - u - 1
    } else {
        u
    }
}

/// Draws the wall slice of column `x`, whose ray hit `hit`.
fn draw_slice(
    atlas: &Atlas,
    g: &Vec<Vec<u8>>,
    color: &mut Vec<u32>,
    w: usize,
    h: usize,
    cam: &Camera,
    start: i64,
    x: usize,
    hit: &Walk,
) -> (perp: i64)
    requires
        atlas.wf(),
        atlas.bytes_per_pixel == 3,
        grid_wf(g@),
        materials_within(g@, atlas.textures@.len() as int),
        cam.wf(),
        screen_ok(w as int, h as int),
        x < w,
        0 <= start <= MAX_START,
        old(color)@.len() == w * h,
        column_hit(g@, *cam, w as int, x as int, start as int) == Some(hit@),
    ensures
        final(color)@.len() == w * h,
        perp == wall_depth(g@, *cam, w as int, x as int, start as int, 0),
        forall|cx: int, cy: int|
            0 <= cx < w && 0 <= cy < h ==> #[trigger] final(color)@[pixel(w as int, cx, cy)] == if cx == x {
                wall_pixel(*atlas, g@, *cam, w as int, h as int, start as int, cx, cy, old(color)@[pixel(w as int, cx, cy)])
            } else {
                old(color)@[pixel(w as int, cx, cy)]
            },
{
    let ghost rm = column_ray(*cam, w as int, x as int, start as int);
    let (dx, dy) = column_dir(cam, w, x);
    proof {
        let s0 = walk_start(*cam, rm);
        assert(s0.side_x >= 0 && s0.side_y >= 0);
        lemma_trace_hit(g@, rm, s0);
    }
    let perp = hit_perp(cam, dx, dy, w, hit);
    let u = hit_u(cam, dx, dy, w, hit, perp, atlas.width);
    let hi = h as i64;
    let lh: i64 = hi * UNIT / (if perp > 0 { perp } else { 1 });
    assert(lh <= hi * UNIT) by {
        vstd::arithmetic::div_mod::lemma_div_is_ordered_by_denominator(hi * UNIT, 1, if perp > 0 { perp as int } else { 1 });
    }
    let top: i64 = hi / 2 - lh / 2;
    let bottom: i64 = hi / 2 + lh / 2;
    let y0: i64 = if top < 0 { 0 } else { top };
    let y1: i64 = if bottom > hi { hi } else { bottom };
    let tex = (g[hit.map_x as usize][hit.map_y as usize] - 1) as usize;
    let ghost orig = color@;
    assert(y0 <= y1);
    assert(perp == perp_dist(*cam, rm, hit@));
    assert(u == wall_u(*cam, rm, hit@, atlas.width as int));
    assert(lh == line_height(h as int, perp as int));
    assert(tex == cell(g@, hit.map_x as int, hit.map_y as int) - 1);
    let mut y: i64 = y0;
    while y < y1
        invariant
            atlas.wf(),
            atlas.bytes_per_pixel == 3,
            color@.len() == w * h,
            screen_ok(w as int, h as int),
            hi == h,
            x < w,
            0 <= y0 <= y,
            y <= y1,
            y1 <= hi,
            lh > 0 || y0 >= y1,
            lh <= hi * UNIT,
            top == slice_top(h as int, lh as int),
            bottom == h / 2 + lh / 2,
            y0 == (if top < 0 { 0 } else { top }),
            y1 == (if bottom > hi { hi } else { bottom }),
            u < atlas.width,
            tex < atlas.textures@.len(),
            forall|cx: int, cy: int|
                0 <= cx < w && 0 <= cy < h ==> #[trigger] color@[pixel(w as int, cx, cy)] == if cx == x && y0 <= cy < y {
                    atlas.texel(tex as int, u + wall_v(h as int, lh as int, cy, atlas.height as int) * atlas.width)
                } else {
                    orig[pixel(w as int, cx, cy)]
                },
        decreases y1 - y,
    {
        assert(0 <= y - top < lh);
        let ghost th = atlas.height as int;
        let ghost dy_ = (y - top) as int;
        assert(dy_ * th <= 0x80000000) by (nonlinear_arith)
            requires 0 <= dy_ < lh, lh <= 2048 * 1024, 1 <= th <= 1024;
        assert(dy_ * th >= 0) by (nonlinear_arith)
            requires 0 <= dy_, 1 <= th;
        let v = ((y - top) * (atlas.height as i64) / lh) as usize;
        proof {
            vstd::arithmetic::div_mod::lemma_fundamental_div_mod(dy_ * th, lh as int);
            let q = (dy_ * th) / (lh as int);
            assert(q < th) by (nonlinear_arith)
                requires
                    dy_ * th == lh * q + (dy_ * th) % (lh as int),
                    0 <= (dy_ * th) % (lh as int),
                    0 <= dy_ < lh,
                    th >= 1;
            assert(v == wall_v(h as int, lh as int, y as int, th));
        }
        assert(u + v * atlas.width < atlas.width * atlas.height) by (nonlinear_arith)
            requires u < atlas.width, v < atlas.height;
        assert(atlas.width * atlas.height <= 1024 * 1024) by (nonlinear_arith)
            requires atlas.width <= 1024, atlas.height <= 1024;
        assert(w * h <= 2048 * 2048) by (nonlinear_arith)
            requires w <= 2048, h <= 2048;
        let c = atlas.read_texel(tex, u + v * atlas.width);
        proof {
            lemma_pixel_in(w as int, h as int, x as int, y as int);
        }
        let idx = (y as usize) * w + x;
        let ghost prev = color@;
        color.set(idx, c);
        proof {
            assert forall|cx: int, cy: int| 0 <= cx < w && 0 <= cy < h implies #[trigger] color@[pixel(w as int, cx, cy)]
                == if cx == x && y0 <= cy < y + 1 {
                    atlas.texel(tex as int, u + wall_v(h as int, lh as int, cy, atlas.height as int) * atlas.width)
                } else {
                    orig[pixel(w as int, cx, cy)]
                } by {
                lemma_pixel_in(w as int, h as int, cx, cy);
                if cx != x || cy != y {
                    lemma_pixel_distinct(w as int, cx, cy, x as int, y as int);
                    assert(color@[pixel(w as int, cx, cy)] == prev[pixel(w as int, cx, cy)]);
                }
            }
        }
        y = y + 1;
    }
    proof {
        assert forall|cx: int, cy: int| 0 <= cx < w && 0 <= cy < h implies #[trigger] color@[pixel(w as int, cx, cy)] == if cx == x {
                wall_pixel(*atlas, g@, *cam, w as int, h as int, start as int, cx, cy, orig[pixel(w as int, cx, cy)])
            } else {
                orig[pixel(w as int, cx, cy)]
            } by {
            if cx == x {
                assert(y == y1);
                assert(in_slice(h as int, lh as int, cy) <==> y0 <= cy < y1);
                assert(column_hit(g@, *cam, w as int, cx, start as int) == Some(hit@));
                assert(column_ray(*cam, w as int, cx, start as int) == rm);
                let lh2 = line_height(h as int, perp_dist(*cam, rm, hit@));
                assert(lh2 == lh);
                if y0 <= cy < y1 {
                    assert(color@[pixel(w as int, cx, cy)] == atlas.texel(tex as int, u + wall_v(h as int, lh as int, cy, atlas.height as int) * atlas.width));
                }
            }
        }
    }
    perp
}

/// Casts one ray per screen column: records each column's perpendicular
/// wall distance in `depth` and draws its textured wall slice into `color`.
/// A column whose ray leaves the grid is left as it was.
pub fn render_walls(
    atlas: &Atlas,
    g: &Vec<Vec<u8>>,
    color: &mut Vec<u32>,
    depth: &mut Vec<i64>,
    w: usize,
    h: usize,
    cam: &Camera,
    start: i64,
)
    requires
        atlas.wf(),
        atlas.bytes_per_pixel == 3,
        grid_wf(g@),
        materials_within(g@, atlas.textures@.len() as int),
        cam.wf(),
        screen_ok(w as int, h as int),
        0 <= start <= MAX_START,
        old(color)@.len() == w * h,
        old(depth)@.len() == w,
    ensures
        final(color)@.len() == w * h,
        final(depth)@.len() == w,
        forall|x: int| 0 <= x < w ==> #[trigger] final(depth)@[x] == wall_depth(g@, *cam, w as int, x, start as int, old(depth)@[x]),
        forall|x: int, y: int|
            0 <= x < w && 0 <= y < h ==> #[trigger] final(color)@[pixel(w as int, x, y)] == wall_pixel(
                *atlas, g@, *cam, w as int, h as int, start as int, x, y, old(color)@[pixel(w as int, x, y)]),
{
    let ghost c0 = color@;
    let ghost d0 = depth@;
    let mut x: usize = 0;
    while x < w
        invariant
            atlas.wf(),
            atlas.bytes_per_pixel == 3,
            grid_wf(g@),
            materials_within(g@, atlas.textures@.len() as int),
            cam.wf(),
            screen_ok(w as int, h as int),
            0 <= start <= MAX_START,
            x <= w,
            color@.len() == w * h,
            depth@.len() == w,
            forall|cx: int| 0 <= cx < w ==> #[trigger] depth@[cx] == if cx < x {
                wall_depth(g@, *cam, w as int, cx, start as int, d0[cx]) } else { d0[cx] as int },
            forall|cx: int, cy: int|
                0 <= cx < w && 0 <= cy < h ==> #[trigger] color@[pixel(w as int, cx, cy)] == if cx < x {
                    wall_pixel(*atlas, g@, *cam, w as int, h as int, start as int, cx, cy, c0[pixel(w as int, cx, cy)])
                } else {
                    c0[pixel(w as int, cx, cy)]
                },
        decreases w - x,
    {
        match cast_column(g, cam, w, x, start) {
            Some(hit) => {
                let p = draw_slice(atlas, g, color, w, h, cam, start, x, &hit);
                depth.set(x, p);
            },
            None => {},
        }
        x += 1;
    }
}

/// A grid of `rows` rows of `cols` cells: walls all around, empty inside.
pub open spec fn walled_box(g: Seq<Vec<u8>>, rows: int, cols: int) -> bool {
    &&& g.len() == rows
    &&& 3 <= rows <= MAX_CELLS
    &&& 3 <= cols <= MAX_CELLS
    &&& forall|x: int| 0 <= x < rows ==> (#[trigger] g[x])@.len() == cols
    &&& forall|x: int, y: int|
        0 <= x < rows && 0 <= y < cols ==> (#[trigger] cell(g, x, y) > 0 <==> (x == 0 || x == rows - 1 || y == 0
            || y == cols - 1))
}

/// Distance along one axis from `pos` to the inner face of the border the
/// ray heads for (`n` cells on that axis).
pub open spec fn face_gap(pos: int, d: int, n: int) -> int {
    if d < 0 { pos - UNIT } else { (n - 1) * UNIT - pos }
}

/// The exact distance (fixed point, rounded down) from the camera plane to
/// the border of a walled box along ray `r`: to whichever inner face the
/// ray reaches first.
pub open spec fn box_distance(cam: Camera, r: RayModel, rows: int, cols: int) -> int {
    let ax = face_gap(cam.pos_x as int, r.dx, rows);
    let ay = face_gap(cam.pos_y as int, r.dy, cols);
    if ax * abs(r.dy) < ay * abs(r.dx) {
        ax * r.width * UNIT / abs(r.dx)
    } else {
        ay * r.width * UNIT / abs(r.dy)
    }
}

proof fn lemma_box_trace(g: Seq<Vec<u8>>, cam: Camera, r: RayModel, s: WalkModel, rows: int, cols: int)
    requires
        walled_box(g, rows, cols),
        r.start == 0,
        r.width >= 1,
        r.dx != 0 || r.dy != 0,
        UNIT <= cam.pos_x < (rows - 1) * UNIT,
        UNIT <= cam.pos_y < (cols - 1) * UNIT,
        1 <= s.map_x <= rows - 2,
        1 <= s.map_y <= cols - 2,
        s.side_x == (if r.dx < 0 { cam.pos_x - s.map_x * UNIT } else { (s.map_x + 1) * UNIT - cam.pos_x }),
        s.side_y == (if r.dy < 0 { cam.pos_y - s.map_y * UNIT } else { (s.map_y + 1) * UNIT - cam.pos_y }),
        s.side_x >= 0,
        s.side_y >= 0,
        r.dx >= 0 ==> s.side_x > 0,
        r.dy >= 0 ==> s.side_y > 0,
    ensures
        trace(g, r, s) matches Some(hit) && perp_dist(cam, r, hit) == box_distance(cam, r, rows, cols),
    decreases remaining(r, s),
{
    let n = advance(r, s);
    let ax = face_gap(cam.pos_x as int, r.dx, rows);
    let ay = face_gap(cam.pos_y as int, r.dy, cols);
    let adx = abs(r.dx);
    let ady = abs(r.dy);
    assert(s.side_x <= ax && s.side_y <= ay);
    assert(s.side_y * adx <= ay * adx) by (nonlinear_arith)
        requires s.side_y <= ay, adx >= 0;
    assert(s.side_x * ady <= ax * ady) by (nonlinear_arith)
        requires s.side_x <= ax, ady >= 0;
    if s.side_x * ady < s.side_y * adx {
        assert(r.dx != 0) by (nonlinear_arith)
            requires
                s.side_x * ady < s.side_y * adx,
                s.side_x >= 0,
                ady >= 0,
                adx == abs(r.dx);
        assert(g[n.map_x]@.len() == cols);
        if n.map_x == 0 || n.map_x == rows - 1 {
            assert(cell(g, n.map_x, n.map_y) > 0);
            assert(s.side_x == ax);
            assert(ax * ady < ay * adx);
            let a = n.map_x * UNIT + (if r.dx < 0 { UNIT } else { 0 }) - cam.pos_x;
            assert(a == -ax || a == ax);
            assert(a * r.width * UNIT == -(ax * r.width * UNIT) || a * r.width * UNIT == ax * r.width * UNIT)
                by (nonlinear_arith)
                requires a == -ax || a == ax;
            assert(ax * r.width * UNIT >= 0) by (nonlinear_arith)
                requires ax >= 0, r.width >= 1;
        } else {
            assert(cell(g, n.map_x, n.map_y) == 0);
            lemma_box_trace(g, cam, r, n, rows, cols);
        }
    } else {
        if r.dy == 0 {
            assert(s.side_y * adx > 0) by (nonlinear_arith)
                requires s.side_y > 0, r.dx != 0, adx == abs(r.dx);
        }
        assert(r.dy != 0);
        assert(g[n.map_x]@.len() == cols);
        if n.map_y == 0 || n.map_y == cols - 1 {
            assert(cell(g, n.map_x, n.map_y) > 0);
            assert(s.side_y == ay);
            assert(!(ax * ady < ay * adx));
            let a = n.map_y * UNIT + (if r.dy < 0 { UNIT } else { 0 }) - cam.pos_y;
            assert(a == -ay || a == ay);
            assert(a * r.width * UNIT == -(ay * r.width * UNIT) || a * r.width * UNIT == ay * r.width * UNIT)
                by (nonlinear_arith)
                requires a == -ay || a == ay;
            assert(ay * r.width * UNIT >= 0) by (nonlinear_arith)
                requires ay >= 0, r.width >= 1;
        } else {
            assert(cell(g, n.map_x, n.map_y) == 0);
            lemma_box_trace(g, cam, r, n, rows, cols);
        }
    }
}

/// In a walled box with the camera inside, every column's ray hits the
/// border, and its wall distance is the analytic distance to the nearest
/// border face along that ray.
pub proof fn lemma_box_wall_distance(g: Seq<Vec<u8>>, cam: Camera, w: int, x: int, rows: int, cols: int)
    requires
        walled_box(g, rows, cols),
        cam.wf(),
        1 <= w <= MAX_SCREEN,
        0 <= x < w,
        UNIT <= cam.pos_x < (rows - 1) * UNIT,
        UNIT <= cam.pos_y < (cols - 1) * UNIT,
    ensures
        column_hit(g, cam, w, x, 0) is Some,
        forall|old: i64| #[trigger] wall_depth(g, cam, w, x, 0, old) == box_distance(cam, column_ray(cam, w, x, 0), rows, cols),
{
    lemma_ray_bounds(cam, w, x);
    let r = column_ray(cam, w, x, 0);
    let s0 = walk_start(cam, r);
    let u = UNIT as int;
    assert(1 <= s0.map_x <= rows - 2) by {
        vstd::arithmetic::div_mod::lemma_fundamental_div_mod(cam.pos_x as int, u);
        assert(1 <= (cam.pos_x as int) / u <= rows - 2) by (nonlinear_arith)
            requires
                cam.pos_x == u * ((cam.pos_x as int) / u) + (cam.pos_x as int) % u,
                0 <= (cam.pos_x as int) % u < u,
                u <= cam.pos_x < (rows - 1) * u,
                u == 1024;
    }
    assert(1 <= s0.map_y <= cols - 2) by {
        vstd::arithmetic::div_mod::lemma_fundamental_div_mod(cam.pos_y as int, u);
        assert(1 <= (cam.pos_y as int) / u <= cols - 2) by (nonlinear_arith)
            requires
                cam.pos_y == u * ((cam.pos_y as int) / u) + (cam.pos_y as int) % u,
                0 <= (cam.pos_y as int) % u < u,
                u <= cam.pos_y < (cols - 1) * u,
                u == 1024;
    }
    vstd::arithmetic::div_mod::lemma_fundamental_div_mod(cam.pos_x as int, u);
    vstd::arithmetic::div_mod::lemma_fundamental_div_mod(cam.pos_y as int, u);
    lemma_box_trace(g, cam, r, s0, rows, cols);
}

} // verus!
