//! Row-major indexing of rectangular grids.
use vstd::prelude::*;

verus! {

/// The position of cell `(x, y)` in the row-major storage of a grid `width`
/// cells wide.
pub open spec fn row_major(width: int, x: int, y: int) -> int {
    y * width + x
}

/// A cell inside a `width` x `height` grid has a row-major position inside
/// the grid's storage.
pub proof fn lemma_row_major_in_bounds(width: int, height: int, x: int, y: int)
    requires
        0 <= x < width,
        0 <= y < height,
    ensures
        0 <= row_major(width, x, y) < width * height,
        row_major(width, x, y) + 1 <= width * height,
{
    assert(0 <= y * width + x < width * height) by (nonlinear_arith)
        requires
            0 <= x < width,
            0 <= y < height,
    ;
}

/// Distinct cells of a grid have distinct row-major positions.
pub proof fn lemma_row_major_injective(width: int, x1: int, y1: int, x2: int, y2: int)
    requires
        0 <= x1 < width,
        0 <= x2 < width,
        0 <= y1,
        0 <= y2,
        row_major(width, x1, y1) == row_major(width, x2, y2),
    ensures
        x1 == x2,
        y1 == y2,
{
    if y1 < y2 {
        assert(y1 * width + width <= y2 * width) by (nonlinear_arith)
            requires
                y1 < y2,
                0 < width,
        ;
    } else if y2 < y1 {
        assert(y2 * width + width <= y1 * width) by (nonlinear_arith)
            requires
                y2 < y1,
                0 < width,
        ;
    }
}

} // verus!
