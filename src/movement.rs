use vstd::prelude::*;
use crate::fixed::{UNIT, MAX_CELLS, MAX_DIR, floor_div};
use crate::grid::{grid_wf, in_grid, cell};
use crate::camera::{Camera, abs};

verus! {

/// Distance moved per step, in fixed point per unit of direction (0.1).
pub const MOVE_STEP: i64 = 102;

/// Cosine and sine of the turn per step (0.1 radian), in fixed point.
pub const TURN_COS: i64 = 1019;
pub const TURN_SIN: i64 = 102;

/// A movement command.
#[derive(Clone, Copy, Debug, PartialEq, Eq, Structural)]
pub enum Move {
    Forward,
    Backward,
    TurnLeft,
    TurnRight,
    StrafeLeft,
    StrafeRight,
}

/// The cell under a fixed-point position exists and is empty.
pub open spec fn walkable(g: Seq<Vec<u8>>, px: int, py: int) -> bool {
    &&& 0 <= px
    &&& 0 <= py
    &&& in_grid(g, px / (UNIT as int), py / (UNIT as int))
    &&& cell(g, px / (UNIT as int), py / (UNIT as int)) == 0
}

/// `v` scaled by the movement step, rounded down.
pub open spec fn step_of(v: int) -> int {
    v * MOVE_STEP / (UNIT as int)
}

/// Moves by `(mx, my)` one axis at a time, each only onto a walkable cell.
pub open spec fn slide(g: Seq<Vec<u8>>, cam: Camera, mx: int, my: int) -> Camera {
    let x1 = if walkable(g, cam.pos_x + mx, cam.pos_y as int) { cam.pos_x + mx } else { cam.pos_x as int };
    let y1 = if walkable(g, x1, cam.pos_y + my) { cam.pos_y + my } else { cam.pos_y as int };
    Camera { pos_x: x1 as i64, pos_y: y1 as i64, ..cam }
}

/// `(x, y)` turned by the step angle, counterclockwise when `left`.
pub open spec fn turn_x(x: int, y: int, left: bool) -> int {
    if left { (x * TURN_COS - y * TURN_SIN) / (UNIT as int) } else { (x * TURN_COS + y * TURN_SIN) / (UNIT as int) }
}

pub open spec fn turn_y(x: int, y: int, left: bool) -> int {
    if left { (x * TURN_SIN + y * TURN_COS) / (UNIT as int) } else { (y * TURN_COS - x * TURN_SIN) / (UNIT as int) }
}

/// Direction and plane turned by one step.
pub open spec fn turned(cam: Camera, left: bool) -> Camera {
    Camera {
        dir_x: turn_x(cam.dir_x as int, cam.dir_y as int, left) as i64,
        dir_y: turn_y(cam.dir_x as int, cam.dir_y as int, left) as i64,
        plane_x: turn_x(cam.plane_x as int, cam.plane_y as int, left) as i64,
        plane_y: turn_y(cam.plane_x as int, cam.plane_y as int, left) as i64,
        ..cam
    }
}

/// The camera after a command.  A turn that would leave the valid range
/// of directions is not taken.
pub open spec fn moved(g: Seq<Vec<u8>>, cam: Camera, m: Move) -> Camera {
    match m {
        Move::Forward => slide(g, cam, step_of(cam.dir_x as int), step_of(cam.dir_y as int)),
        Move::Backward => slide(g, cam, -step_of(cam.dir_x as int), -step_of(cam.dir_y as int)),
        Move::StrafeLeft => slide(g, cam, -step_of(cam.dir_y as int), step_of(cam.dir_x as int)),
        Move::StrafeRight => slide(g, cam, step_of(cam.dir_y as int), -step_of(cam.dir_x as int)),
        Move::TurnLeft => if turned(cam, true).wf() { turned(cam, true) } else { cam },
        Move::TurnRight => if turned(cam, false).wf() { turned(cam, false) } else { cam },
    }
}

/// Speed reported for a command: forward, backward, or none.
pub open spec fn reported_speed(m: Move) -> int {
    match m {
        Move::Forward => MOVE_STEP as int,
        Move::Backward | Move::StrafeLeft | Move::StrafeRight => -MOVE_STEP,
        _ => 0,
    }
}

fn is_walkable(g: &Vec<Vec<u8>>, px: i64, py: i64) -> (r: bool)
    requires
        grid_wf(g@),
    ensures
        r == walkable(g@, px as int, py as int),
{
    if px < 0 || py < 0 {
        return false;
    }
    let cx = px / UNIT;
    let cy = py / UNIT;
    if cx as u64 >= g.len() as u64 {
        return false;
    }
    let row = &g[cx as usize];
    if cy as u64 >= row.len() as u64 {
        return false;
    }
    assert(cx < MAX_CELLS && cy < MAX_CELLS);
    row[cy as usize] == 0
}

fn slide_exec(g: &Vec<Vec<u8>>, cam: &mut Camera, mx: i64, my: i64)
    requires
        grid_wf(g@),
        old(cam).wf(),
        abs(mx as int) <= 1024,
        abs(my as int) <= 1024,
    ensures
        *final(cam) == slide(g@, *old(cam), mx as int, my as int),
        final(cam).wf(),
{
    let nx = cam.pos_x + mx;
    if is_walkable(g, nx, cam.pos_y) {
        cam.pos_x = nx;
    }
    let ny = cam.pos_y + my;
    if is_walkable(g, cam.pos_x, ny) {
        cam.pos_y = ny;
    }
    proof {
        assert(cam.pos_x / UNIT < MAX_CELLS ==> cam.pos_x < MAX_CELLS * UNIT);
    }
}

fn step_exec(v: i64) -> (r: i64)
    requires
        abs(v as int) <= MAX_DIR,
    ensures
        r == step_of(v as int),
        abs(r as int) <= 1024,
{
    let q = floor_div((v * MOVE_STEP) as i128, UNIT as i128);
    assert(abs(q as int) <= 1024) by {
        assert(abs(v * MOVE_STEP) <= 2048 * 102) by (nonlinear_arith)
            requires abs(v as int) <= 2048;
        vstd::arithmetic::div_mod::lemma_fundamental_div_mod(v * MOVE_STEP, 1024);
    }
    q as i64
}

fn turn_exec(x: i64, y: i64, left: bool) -> (r: (i64, i64))
    requires
        abs(x as int) <= MAX_DIR,
        abs(y as int) <= MAX_DIR,
    ensures
        r.0 == turn_x(x as int, y as int, left),
        r.1 == turn_y(x as int, y as int, left),
{
    assert(abs(x * TURN_COS) <= 2048 * 1019 && abs(y * TURN_SIN) <= 2048 * 102
        && abs(y * TURN_COS) <= 2048 * 1019 && abs(x * TURN_SIN) <= 2048 * 102) by (nonlinear_arith)
        requires abs(x as int) <= 2048, abs(y as int) <= 2048;
    let (a, b) = if left {
        (x * TURN_COS - y * TURN_SIN, x * TURN_SIN + y * TURN_COS)
    } else {
        (x * TURN_COS + y * TURN_SIN, y * TURN_COS - x * TURN_SIN)
    };
    let qa = floor_div(a as i128, UNIT as i128);
    let qb = floor_div(b as i128, UNIT as i128);
    (qa as i64, qb as i64)
}

/// Applies a movement command to the camera: steps move one axis at a time
/// and only onto empty cells of the grid; turns rotate direction and plane
/// together.  Returns the speed to report for the command.
pub fn move_player(g: &Vec<Vec<u8>>, cam: &mut Camera, m: Move) -> (speed: i64)
    requires
        grid_wf(g@),
        old(cam).wf(),
    ensures
        *final(cam) == moved(g@, *old(cam), m),
        final(cam).wf(),
        speed == reported_speed(m),
{
    match m {
        Move::Forward | Move::Backward | Move::StrafeLeft | Move::StrafeRight => {
            let sx = step_exec(cam.dir_x);
            let sy = step_exec(cam.dir_y);
            match m {
                Move::Forward => slide_exec(g, cam, sx, sy),
                Move::Backward => slide_exec(g, cam, -sx, -sy),
                Move::StrafeLeft => slide_exec(g, cam, -sy, sx),
                _ => slide_exec(g, cam, sy, -sx),
            }
            if m == Move::Forward { MOVE_STEP } else { -MOVE_STEP }
        },
        _ => {
            let left = m == Move::TurnLeft;
            let (dx, dy) = turn_exec(cam.dir_x, cam.dir_y, left);
            let (px, py) = turn_exec(cam.plane_x, cam.plane_y, left);
            let c = Camera { dir_x: dx, dir_y: dy, plane_x: px, plane_y: py, ..*cam };
            if c.check() {
                *cam = c;
            }
            0
        },
    }
}

} // verus!
