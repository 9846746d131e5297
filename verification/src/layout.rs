//! Planar data movement.
//!
//! The pipeline stores planes row-major.  The XYB stage de-interleaves
//! per-pixel triples into three planes, and the transpose-based blur backend
//! runs its vertical pass on a transposed copy of the plane.  Both movements
//! are pure permutations and are verified here for any element type.

use vstd::prelude::*;

verus! {

/// Row-major flat index of `(row, col)` in a grid `width` columns wide.
pub open spec fn grid_index(width: int, row: int, col: int) -> int {
    row * width + col
}

/// In-range coordinates map to an in-range flat index.
pub proof fn lemma_grid_index_in_range(width: int, rows: int, row: int, col: int)
    requires
        0 <= row < rows,
        0 <= col < width,
    ensures
        0 <= grid_index(width, row, col) < rows * width,
        col <= grid_index(width, row, col),
        row * width <= grid_index(width, row, col),
{
    assert(0 <= row * width && row * width + col < rows * width) by (nonlinear_arith)
        requires
            0 <= row < rows,
            0 <= col < width,
    ;
}

/// Transposes a row-major `width` x `height` plane: sample `(row, col)` of
/// the input becomes sample `(col, row)` of the output, whose rows are
/// `height` samples wide.
pub fn transpose_plane<T: Copy>(input: &Vec<T>, width: usize, height: usize) -> (out: Vec<T>)
    requires
        input.len() == width * height,
    ensures
        out.len() == width * height,
        forall|x: int, y: int|
            0 <= x < width && 0 <= y < height ==> out[#[trigger] grid_index(height as int, x, y)]
                == input[grid_index(width as int, y, x)],
{
    let mut out: Vec<T> = Vec::new();
    let mut x: usize = 0;
    while x < width
        invariant
            input.len() == width * height,
            x <= width,
            out.len() == x * height,
            forall|xi: int, yi: int|
                0 <= xi < x && 0 <= yi < height ==> out[#[trigger] grid_index(
                    height as int,
                    xi,
                    yi,
                )] == input[grid_index(width as int, yi, xi)],
        decreases width - x,
    {
        let mut y: usize = 0;
        while y < height
            invariant
                input.len() == width * height,
                x < width,
                y <= height,
                out.len() == x * height + y,
                forall|xi: int, yi: int|
                    0 <= xi < x && 0 <= yi < height ==> out[#[trigger] grid_index(
                        height as int,
                        xi,
                        yi,
                    )] == input[grid_index(width as int, yi, xi)],
                forall|yi: int|
                    0 <= yi < y ==> out[#[trigger] grid_index(height as int, x as int, yi)]
                        == input[grid_index(width as int, yi, x as int)],
            decreases height - y,
        {
            proof {
                lemma_grid_index_in_range(width as int, height as int, y as int, x as int);
                assert forall|xi: int, yi: int| 0 <= xi < x && 0 <= yi < height implies #[trigger]
                    grid_index(height as int, xi, yi) < x * height by {
                    lemma_grid_index_in_range(height as int, x as int, xi, yi);
                }
            }
            let idx: usize = y * width + x;
            out.push(input[idx]);
            y = y + 1;
        }
        proof {
            assert((x + 1) * height == x * height + height) by (nonlinear_arith);
        }
        x = x + 1;
    }
    out
}

/// Splits interleaved per-pixel triples into three planes of equal length,
/// preserving pixel order.
pub fn deinterleave3<T: Copy>(data: &Vec<(T, T, T)>) -> (out: (Vec<T>, Vec<T>, Vec<T>))
    ensures
        out.0.len() == data.len(),
        out.1.len() == data.len(),
        out.2.len() == data.len(),
        forall|i: int|
            0 <= i < data.len() ==> out.0[i] == #[trigger] data[i].0 && out.1[i] == data[i].1
                && out.2[i] == data[i].2,
{
    let mut p0: Vec<T> = Vec::new();
    let mut p1: Vec<T> = Vec::new();
    let mut p2: Vec<T> = Vec::new();
    let mut i: usize = 0;
    while i < data.len()
        invariant
            i <= data.len(),
            p0.len() == i,
            p1.len() == i,
            p2.len() == i,
            forall|j: int|
                0 <= j < i ==> p0[j] == #[trigger] data[j].0 && p1[j] == data[j].1 && p2[j]
                    == data[j].2,
        decreases data.len() - i,
    {
        let pixel = data[i];
        p0.push(pixel.0);
        p1.push(pixel.1);
        p2.push(pixel.2);
        i = i + 1;
    }
    (p0, p1, p2)
}

} // verus!
