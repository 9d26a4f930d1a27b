use vstd::prelude::*;
use crate::fixed::MAX_CELLS;

verus! {

/// A grid is a list of rows of material ids: 0 is walkable, `n > 0` is a
/// wall drawn with texture `n - 1`.  Rows may differ in length.
pub open spec fn grid_wf(g: Seq<Vec<u8>>) -> bool {
    &&& g.len() <= MAX_CELLS
    &&& forall|i: int| 0 <= i < g.len() ==> (#[trigger] g[i])@.len() <= MAX_CELLS
}

/// The cell `(x, y)` exists: `x` picks the row and `y` the cell in it.
pub open spec fn in_grid(g: Seq<Vec<u8>>, x: int, y: int) -> bool {
    &&& 0 <= x < g.len()
    &&& 0 <= y < g[x]@.len()
    &&& x < MAX_CELLS
    &&& y < MAX_CELLS
}

pub open spec fn cell(g: Seq<Vec<u8>>, x: int, y: int) -> u8 {
    g[x]@[y]
}

/// Every wall of the grid names one of `n_textures` textures.
pub open spec fn materials_within(g: Seq<Vec<u8>>, n_textures: int) -> bool {
    forall|x: int, y: int| in_grid(g, x, y) ==> #[trigger] cell(g, x, y) <= n_textures
}

/// Why a grid was refused.
#[derive(Clone, Copy, Debug, PartialEq, Eq, Structural)]
pub enum GridError {
    /// More than `MAX_CELLS` rows, or a row with more than `MAX_CELLS` cells.
    TooLarge,
    /// The cell at this row and column names a texture that does not exist.
    UnknownMaterial(usize, usize),
}

/// Checks a grid received from outside before it is rendered: it must fit
/// the size limits and every wall must name one of `n_textures` textures.
pub fn validate_grid(g: &Vec<Vec<u8>>, n_textures: usize) -> (r: Result<(), GridError>)
    ensures
        r is Ok <==> grid_wf(g@) && materials_within(g@, n_textures as int),
        r == Err::<(), GridError>(GridError::TooLarge) <==> !grid_wf(g@),
        r matches Err(GridError::UnknownMaterial(x, y)) ==> {
            &&& grid_wf(g@)
            &&& in_grid(g@, x as int, y as int)
            &&& cell(g@, x as int, y as int) > n_textures
        },
{
    if g.len() > MAX_CELLS as usize {
        return Err(GridError::TooLarge);
    }
    let mut i: usize = 0;
    while i < g.len()
        invariant
            i <= g.len() <= MAX_CELLS,
            forall|k: int| 0 <= k < i ==> (#[trigger] g@[k])@.len() <= MAX_CELLS,
        decreases g.len() - i,
    {
        if g[i].len() > MAX_CELLS as usize {
            return Err(GridError::TooLarge);
        }
        i += 1;
    }
    let mut x: usize = 0;
    while x < g.len()
        invariant
            grid_wf(g@),
            x <= g.len(),
            forall|a: int, b: int| 0 <= a < x && in_grid(g@, a, b) ==> #[trigger] cell(g@, a, b) <= n_textures,
        decreases g.len() - x,
    {
        let row = &g[x];
        let mut y: usize = 0;
        while y < row.len()
            invariant
                grid_wf(g@),
                x < g.len(),
                row == g@[x as int],
                y <= row.len(),
                forall|a: int, b: int| 0 <= a < x && in_grid(g@, a, b) ==> #[trigger] cell(g@, a, b) <= n_textures,
                forall|b: int| 0 <= b < y ==> #[trigger] cell(g@, x as int, b) <= n_textures,
            decreases row.len() - y,
        {
            if row[y] as usize > n_textures {
                assert(in_grid(g@, x as int, y as int));
                assert(cell(g@, x as int, y as int) > n_textures);
                assert(!materials_within(g@, n_textures as int));
                return Err(GridError::UnknownMaterial(x, y));
            }
            y += 1;
        }
        x += 1;
    }
    Ok(())
}

} // verus!
