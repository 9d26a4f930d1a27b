use vstd::prelude::*;
use crate::fixed::{UNIT, MAX_CELLS, MAX_DIR, POS_MARGIN};

verus! {

/// A camera pose in fixed point: position in grid units times `UNIT`, the
/// view direction, and the camera plane (perpendicular to the direction; its
/// length encodes half the field of view).
#[derive(Clone, Copy, Debug, PartialEq, Eq, Structural)]
pub struct Camera {
    pub pos_x: i64,
    pub pos_y: i64,
    pub dir_x: i64,
    pub dir_y: i64,
    pub plane_x: i64,
    pub plane_y: i64,
}

pub open spec fn abs(v: int) -> int {
    if v < 0 { -v } else { v }
}

impl Camera {
    /// Determinant of the `[plane, direction]` basis.
    pub open spec fn det(&self) -> int {
        self.plane_x * self.dir_y - self.dir_x * self.plane_y
    }

    /// The position lies in the grid's square or within `POS_MARGIN` of it,
    /// and the basis is bounded and not degenerate.
    pub open spec fn wf(&self) -> bool {
        &&& -POS_MARGIN <= self.pos_x < MAX_CELLS * UNIT + POS_MARGIN
        &&& -POS_MARGIN <= self.pos_y < MAX_CELLS * UNIT + POS_MARGIN
        &&& abs(self.dir_x as int) <= MAX_DIR
        &&& abs(self.dir_y as int) <= MAX_DIR
        &&& abs(self.plane_x as int) <= MAX_DIR
        &&& abs(self.plane_y as int) <= MAX_DIR
        &&& self.det() != 0
    }

    pub open spec fn moved_to_spec(&self, pos_x: i64, pos_y: i64) -> Camera {
        Camera { pos_x, pos_y, ..*self }
    }

    /// Whether the pose is valid (`wf`), for poses that come from outside.
    pub fn check(&self) -> (r: bool)
        ensures
            r == self.wf(),
    {
        let hi = MAX_CELLS * UNIT + POS_MARGIN;
        if !(-POS_MARGIN <= self.pos_x && self.pos_x < hi && -POS_MARGIN <= self.pos_y && self.pos_y < hi) {
            return false;
        }
        if !(-MAX_DIR <= self.dir_x && self.dir_x <= MAX_DIR && -MAX_DIR <= self.dir_y && self.dir_y <= MAX_DIR
            && -MAX_DIR <= self.plane_x && self.plane_x <= MAX_DIR && -MAX_DIR <= self.plane_y && self.plane_y
            <= MAX_DIR) {
            return false;
        }
        assert(abs(self.plane_x * self.dir_y) <= 0x400000 && abs(self.dir_x * self.plane_y) <= 0x400000) by (nonlinear_arith)
            requires
                abs(self.dir_x as int) <= 2048,
                abs(self.dir_y as int) <= 2048,
                abs(self.plane_x as int) <= 2048,
                abs(self.plane_y as int) <= 2048;
        self.plane_x * self.dir_y - self.dir_x * self.plane_y != 0
    }

    /// The same orientation at another position.
    pub fn moved_to(&self, pos_x: i64, pos_y: i64) -> (r: Camera)
        ensures
            r == self.moved_to_spec(pos_x, pos_y),
    {
        Camera { pos_x, pos_y, ..*self }
    }
}

} // verus!
