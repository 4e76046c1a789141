//! The candidate cells of the random scene.
//!
//! The random scene scatters small spheres over a square grid of unit cells
//! around the origin, one candidate per cell, visited row by row.
use vstd::prelude::*;

verus! {

/// The grid spans the cells `-GRID_HALF_EXTENT .. GRID_HALF_EXTENT` on each axis.
pub const GRID_HALF_EXTENT: i32 = 11;

/// Number of cells along one axis.
pub const GRID_SIDE: usize = 22;

/// The cell visited at position `k`: rows by the first coordinate, cells in a
/// row by the second.
pub open spec fn grid_cell(k: int) -> (int, int) {
    (k / GRID_SIDE as int - GRID_HALF_EXTENT, k % GRID_SIDE as int - GRID_HALF_EXTENT)
}

/// All cells of the grid in visiting order.
pub fn grid_cells() -> (cells: Vec<(i32, i32)>)
    ensures
        cells@.len() == GRID_SIDE * GRID_SIDE,
        forall|k: int|
            0 <= k < cells@.len() ==> (#[trigger] cells@[k]).0 == grid_cell(k).0 && cells@[k].1
                == grid_cell(k).1,
{
    let mut cells: Vec<(i32, i32)> = Vec::new();
    let mut a: i32 = -GRID_HALF_EXTENT;
    while a < GRID_HALF_EXTENT
        invariant
            -GRID_HALF_EXTENT <= a <= GRID_HALF_EXTENT,
            cells@.len() == GRID_SIDE * (a + GRID_HALF_EXTENT),
            forall|k: int|
                0 <= k < cells@.len() ==> (#[trigger] cells@[k]).0 == grid_cell(k).0
                    && cells@[k].1 == grid_cell(k).1,
        decreases GRID_HALF_EXTENT - a,
    {
        let mut b: i32 = -GRID_HALF_EXTENT;
        while b < GRID_HALF_EXTENT
            invariant
                -GRID_HALF_EXTENT <= a < GRID_HALF_EXTENT,
                -GRID_HALF_EXTENT <= b <= GRID_HALF_EXTENT,
                cells@.len() == GRID_SIDE * (a + GRID_HALF_EXTENT) + (b + GRID_HALF_EXTENT),
                forall|k: int|
                    0 <= k < cells@.len() ==> (#[trigger] cells@[k]).0 == grid_cell(k).0
                        && cells@[k].1 == grid_cell(k).1,
            decreases GRID_HALF_EXTENT - b,
        {
            cells.push((a, b));
            b = b + 1;
        }
        a = a + 1;
    }
    cells
}

} // verus!
