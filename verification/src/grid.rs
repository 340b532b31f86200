//! Row-major indexing shared by the tile grids.
use vstd::prelude::*;

verus! {

/// Position of cell `(x, y)` in a row-major grid of width `w`.
pub open spec fn cell_index(x: int, y: int, w: int) -> int {
    y * w + x
}

/// A cell inside a `w` x `h` grid has an index below `w * h`.
pub proof fn lemma_cell_index_bounds(x: int, y: int, w: int, h: int)
    requires
        0 <= x < w,
        0 <= y < h,
    ensures
        0 <= cell_index(x, y, w) < w * h,
{
    assert(0 <= y * w) by (nonlinear_arith)
        requires
            0 <= y,
            0 <= w,
    ;
    assert(y * w + x < w * h) by (nonlinear_arith)
        requires
            0 <= x < w,
            0 <= y < h,
    ;
}

/// Distinct cells have distinct indices.
pub proof fn lemma_cell_index_injective(x1: int, y1: int, x2: int, y2: int, w: int)
    requires
        0 <= x1 < w,
        0 <= x2 < w,
        0 <= y1,
        0 <= y2,
        cell_index(x1, y1, w) == cell_index(x2, y2, w),
    ensures
        x1 == x2,
        y1 == y2,
{
    if y1 < y2 {
        assert(y1 * w + w <= y2 * w) by (nonlinear_arith)
            requires
                y1 < y2,
                0 <= w,
        ;
    } else if y2 < y1 {
        assert(y2 * w + w <= y1 * w) by (nonlinear_arith)
            requires
                y2 < y1,
                0 <= w,
        ;
    }
}

/// Every index below `w * h` is the index of exactly one cell.
pub proof fn lemma_cell_of_index(i: int, w: int, h: int)
    requires
        0 < w,
        0 <= i < w * h,
    ensures
        0 <= i % w < w,
        0 <= i / w < h,
        cell_index(i % w, i / w, w) == i,
{
    assert(i == (i / w) * w + i % w) by (nonlinear_arith)
        requires
            0 < w,
    ;
    assert(0 <= i % w < w) by (nonlinear_arith)
        requires
            0 < w,
    ;
    assert(0 <= i / w) by (nonlinear_arith)
        requires
            0 < w,
            0 <= i,
    ;
    assert(i / w < h) by (nonlinear_arith)
        requires
            0 < w,
            0 <= i < w * h,
    ;
}

} // verus!
