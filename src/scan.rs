//! Row-major pixel order: the top row first, each row left to right.
use vstd::prelude::*;
use vstd::arithmetic::div_mod::{lemma_fundamental_div_mod_converse, lemma_multiply_divide_lt};

verus! {

/// A pixel of the image. `row` is the vertical pixel index, with 0 the
/// bottom row and `height - 1` the top row; `col` counts from the left.
#[derive(Clone, Copy, Debug, PartialEq, Eq, Structural)]
pub struct Pixel {
    pub row: usize,
    pub col: usize,
}

/// The vertical index of the pixel written at position `k`.
pub open spec fn row_of(k: int, width: int, height: int) -> int {
    height - 1 - k / width
}

/// The horizontal index of the pixel written at position `k`.
pub open spec fn col_of(k: int, width: int) -> int {
    k % width
}

/// The position at which the pixel (`row`, `col`) is written.
pub open spec fn position_of(row: int, col: int, width: int, height: int) -> int {
    (height - 1 - row) * width + col
}

/// The pixel written at position `index` of an image of `width` by `height`.
pub fn pixel_at(index: usize, width: usize, height: usize) -> (p: Pixel)
    requires
        width > 0,
        index < width * height,
    ensures
        p.row == row_of(index as int, width as int, height as int),
        p.col == col_of(index as int, width as int),
        p.row < height,
        p.col < width,
{
    proof {
        lemma_multiply_divide_lt(index as int, width as int, height as int);
    }
    let q = index / width;
    Pixel { row: height - 1 - q, col: index % width }
}

/// Every pixel of the image in the order in which colors are handed out:
/// `width * height` entries, rows from the top down, left to right within a row.
pub fn scan_order(width: usize, height: usize) -> (v: Vec<Pixel>)
    requires
        width * height <= usize::MAX,
    ensures
        v@.len() == width * height,
        forall|k: int|
            0 <= k < v@.len() ==> {
                &&& #[trigger] v@[k].row == row_of(k, width as int, height as int)
                &&& v@[k].col == col_of(k, width as int)
            },
{
    let n: usize = width * height;
    let mut v: Vec<Pixel> = Vec::new();
    let mut k: usize = 0;
    while k < n
        invariant
            n == width * height,
            k <= n,
            v@.len() == k,
            forall|i: int|
                0 <= i < k ==> {
                    &&& #[trigger] v@[i].row == row_of(i, width as int, height as int)
                    &&& v@[i].col == col_of(i, width as int)
                },
        decreases n - k,
    {
        proof {
            if width == 0 {
                assert(width * height == 0) by (nonlinear_arith)
                    requires width == 0;
            }
        }
        v.push(pixel_at(k, width, height));
        k = k + 1;
    }
    v
}

/// Each pixel of the image is written exactly once: the pixel (`row`, `col`)
/// stands at `position_of(row, col, ..)`, which lies inside the image, and no
/// other position holds it.
pub proof fn lemma_scan_visits_each_pixel_once(width: int, height: int, row: int, col: int)
    requires
        width > 0,
        0 <= row < height,
        0 <= col < width,
    ensures
        0 <= position_of(row, col, width, height) < width * height,
        row_of(position_of(row, col, width, height), width, height) == row,
        col_of(position_of(row, col, width, height), width) == col,
        forall|k: int|
            0 <= k < width * height && #[trigger] row_of(k, width, height) == row && col_of(k, width)
                == col ==> k == position_of(row, col, width, height),
{
    let p = position_of(row, col, width, height);
    let q = height - 1 - row;
    assert(0 <= q < height);
    assert(0 <= p < width * height) by (nonlinear_arith)
        requires
            p == q * width + col,
            0 <= q < height,
            0 <= col < width,
    ;
    lemma_fundamental_div_mod_converse(p, width, q, col);
    assert forall|k: int|
        0 <= k < width * height && #[trigger] row_of(k, width, height) == row && col_of(k, width)
            == col implies k == p by {
        vstd::arithmetic::div_mod::lemma_fundamental_div_mod(k, width);
        assert(k == width * q + col);
        assert(width * q == q * width) by (nonlinear_arith);
    }
}

} // verus!
