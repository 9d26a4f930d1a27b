use vstd::prelude::*;

verus! {

/// Number of fixed-point steps in one grid unit: a coordinate `v` stands for
/// the real value `v / UNIT`.
pub const UNIT: i64 = 1024;

/// Largest number of rows of a grid, and of cells in one row.
pub const MAX_CELLS: i64 = 256;

/// How far (fixed point, eight cells) a camera may stand outside the square
/// of `MAX_CELLS` cells: a portal's view stands within the active range of
/// a destination inside that square.
pub const POS_MARGIN: i64 = 8192;

/// Largest screen width and height in pixels.
pub const MAX_SCREEN: i64 = 2048;

/// Largest magnitude of a direction or plane component (two grid units).
pub const MAX_DIR: i64 = 2048;

/// Floor division by a positive divisor.
pub fn floor_div(a: i128, b: i128) -> (r: i128)
    requires
        b > 0,
    ensures
        r == a / b,
        a >= 0 ==> 0 <= r <= a,
        a < 0 ==> a <= r < 0,
{
    proof {
        vstd::arithmetic::div_mod::lemma_fundamental_div_mod(a as int, b as int);
        assert(a >= 0 ==> 0 <= a / b <= a) by (nonlinear_arith)
            requires
                b > 0,
                a == b * (a / b) + a % b,
                0 <= a % b < b;
        assert(a < 0 ==> a <= a / b < 0) by (nonlinear_arith)
            requires
                b > 0,
                a == b * (a / b) + a % b,
                0 <= a % b < b;
    }
    match a.checked_div_euclid(b) {
        Some(q) => q,
        None => 0,
    }
}

/// Remainder of floor division by a positive divisor, always in `[0, b)`.
pub fn floor_mod(a: i128, b: i128) -> (r: i128)
    requires
        b > 0,
    ensures
        r == a % b,
        0 <= r < b,
{
    match a.checked_rem_euclid(b) {
        Some(m) => m,
        None => 0,
    }
}

} // verus!
