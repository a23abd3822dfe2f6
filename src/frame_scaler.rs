use vstd::prelude::*;
use vstd::arithmetic::div_mod::{
    lemma_fundamental_div_mod_converse_div,
    lemma_fundamental_div_mod_converse_mod,
    lemma_div_is_ordered,
};
use vstd::arithmetic::mul::{lemma_mul_inequality, lemma_mul_is_distributive_add};

verus! {

/// The source pixel shown at index `k` of a `w`-wide image scaled up
/// `scale` times: its column and row divided by `scale`.
pub open spec fn source_index(k: int, w: int, scale: int) -> int {
    ((k / (w * scale)) / scale) * w + (k % (w * scale)) / scale
}

proof fn lemma_source_in_range(row: int, col: int, w: int, h: int, scale: int)
    requires
        0 <= row < h * scale,
        0 <= col < w * scale,
        w > 0,
        scale > 0,
    ensures
        0 <= (row / scale) * w + col / scale < w * h,
{
    assert((h - 1) * scale + (scale - 1) == h * scale - 1) by (nonlinear_arith);
    lemma_fundamental_div_mod_converse_div(h * scale - 1, scale, h - 1, scale - 1);
    lemma_div_is_ordered(row, h * scale - 1, scale);
    assert((w - 1) * scale + (scale - 1) == w * scale - 1) by (nonlinear_arith);
    lemma_fundamental_div_mod_converse_div(w * scale - 1, scale, w - 1, scale - 1);
    lemma_div_is_ordered(col, w * scale - 1, scale);
    assert(0 <= row / scale) by (nonlinear_arith)
        requires
            row >= 0,
            scale > 0,
    ;
    assert(0 <= col / scale) by (nonlinear_arith)
        requires
            col >= 0,
            scale > 0,
    ;
    lemma_mul_inequality(row / scale, h - 1, w);
    assert((h - 1) * w + w == w * h) by (nonlinear_arith);
}

/// Scales a `w` x `h` image up `scale` times in each direction, every pixel
/// becoming a `scale` x `scale` block.
pub fn extend_vec(vec: Vec<u32>, scale: usize, w: usize, h: usize) -> (r: Vec<u32>)
    requires
        vec@.len() == w * h,
        scale > 0,
        w * h * scale * scale <= usize::MAX,
    ensures
        r@.len() == vec@.len() * scale * scale,
        forall|k: int|
            0 <= k < r@.len() ==> r@[k] == vec@[source_index(k, w as int, scale as int)],
{
    if w == 0 || h == 0 {
        return Vec::new();
    }
    assert(w * h * scale * scale == (h * scale) * (w * scale)) by (nonlinear_arith);
    assert(h * scale <= w * h * scale * scale) by (nonlinear_arith)
        requires
            w > 0,
            scale > 0,
    ;
    assert(w * scale <= w * h * scale * scale) by (nonlinear_arith)
        requires
            h > 0,
            scale > 0,
    ;
    assert(w * h <= w * h * scale * scale) by (nonlinear_arith)
        requires
            w > 0,
            h > 0,
            scale > 0,
    ;
    let width: usize = w * scale;
    let height: usize = h * scale;
    let mut new_vec: Vec<u32> = Vec::new();
    let mut row: usize = 0;
    while row < height
        invariant
            vec@.len() == w * h,
            w > 0,
            scale > 0,
            width == w * scale,
            height == h * scale,
            row <= height,
            new_vec@.len() == row * width,
            height * width <= usize::MAX,
            w * h <= usize::MAX,
            forall|k: int|
                0 <= k < new_vec@.len() ==> new_vec@[k] == vec@[source_index(
                    k,
                    w as int,
                    scale as int,
                )],
        decreases height - row,
    {
        let mut col: usize = 0;
        while col < width
            invariant
                vec@.len() == w * h,
                w > 0,
                scale > 0,
                width == w * scale,
                height == h * scale,
                row < height,
                col <= width,
                new_vec@.len() == row * width + col,
                height * width <= usize::MAX,
                w * h <= usize::MAX,
            w * h <= usize::MAX,
                forall|k: int|
                    0 <= k < new_vec@.len() ==> new_vec@[k] == vec@[source_index(
                        k,
                        w as int,
                        scale as int,
                    )],
            decreases width - col,
        {
            proof {
                lemma_source_in_range(row as int, col as int, w as int, h as int, scale as int);
                lemma_mul_inequality(row as int, (height - 1) as int, width as int);
                assert((height - 1) * width + width == height * width) by (nonlinear_arith);
                let k = row * width + col;
                lemma_fundamental_div_mod_converse_div(k, width as int, row as int, col as int);
                lemma_fundamental_div_mod_converse_mod(k, width as int, row as int, col as int);
            }
            let source = (row / scale) * w + col / scale;
            new_vec.push(vec[source]);
            col = col + 1;
        }
        assert((row + 1) * width == row * width + width) by (nonlinear_arith);
        row = row + 1;
    }
    assert(h * scale * (w * scale) == w * h * scale * scale) by (nonlinear_arith);
    new_vec
}

} // verus!
