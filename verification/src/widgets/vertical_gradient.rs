use vstd::prelude::*;
use super::{byte_at, lemma_earlier_row_offset};

verus! {

/// Row offsets of a `w` x `h` frame can be computed in 32 bits: the start
/// `y * w * 4` of every row and the row length `w * 4` fit in a `u32`.
pub open spec fn row_offsets_fit_u32(w: int, h: int) -> bool {
    h == 0 || ((h - 1) * w * 4 <= u32::MAX && w * 4 <= u32::MAX)
}

/// `p` is `before` with row `y < h` of the `w` x `h` frame painted in
/// `rows[y]`, and every byte after the frame unchanged.
pub open spec fn rows_painted(p: Seq<u8>, before: Seq<u8>, w: int, h: int, rows: Seq<[u8; 4]>) -> bool {
    &&& p.len() == before.len()
    &&& forall|x: int, y: int, j: int|
        0 <= x < w && 0 <= y < h && 0 <= j < 4 ==> #[trigger] byte_at(p, w, x, y, j) == rows[y]@[j]
    &&& forall|i: int| w * h * 4 <= i < p.len() ==> #[trigger] p[i] == before[i]
}

/// Paints the vertical gradient widget: every pixel of row `y` of the `w` x
/// `h` frame at the front of `p` takes the color `row_colors[y]`.
pub fn fill_gradient_rows(w: u32, h: u32, p: &mut [u8], row_colors: &Vec<[u8; 4]>)
    requires
        row_colors@.len() == h,
        (w as int) * (h as int) * 4 <= old(p)@.len(),
        row_offsets_fit_u32(w as int, h as int),
    ensures
        rows_painted(final(p)@, old(p)@, w as int, h as int, row_colors@),
{
    let ghost before = p@;
    let ghost wi = w as int;
    let ghost hi = h as int;
    let mut y: u32 = 0;
    while y < h
        invariant
            y <= h,
            wi == w,
            hi == h,
            row_colors@.len() == h,
            wi * hi * 4 <= before.len(),
            row_offsets_fit_u32(wi, hi),
            p@.len() == before.len(),
            forall|xx: int, yy: int, j: int|
                0 <= xx < wi && 0 <= yy < y && 0 <= j < 4 ==> #[trigger] byte_at(p@, wi, xx, yy, j) == row_colors@[yy]@[j],
            forall|i: int| (y as int) * wi * 4 <= i < p@.len() ==> #[trigger] p@[i] == before[i],
        decreases h - y,
    {
        assert((y as int) * wi * 4 <= (hi - 1) * wi * 4) by (nonlinear_arith)
            requires y < hi, 0 <= wi;
        assert((y as int + 1) * wi * 4 <= hi * wi * 4) by (nonlinear_arith)
            requires y < hi, 0 <= wi;
        assert(hi * wi == wi * hi) by (nonlinear_arith);
        let row_start = (y * w * 4) as usize;
        let row_len = (w * 4) as usize;
        let color = row_colors[y as usize];
        assert(row_start + row_len == (y as int + 1) * wi * 4) by (nonlinear_arith)
            requires row_start == (y as int) * wi * 4, row_len == wi * 4;
        let mut x: usize = 0;
        while x < row_len
            invariant
                y < h,
                wi == w,
                hi == h,
                row_colors@.len() == h,
                color == row_colors@[y as int],
                row_start == (y as int) * wi * 4,
                row_len == wi * 4,
                row_start + row_len <= before.len(),
                x % 4 == 0,
                x <= row_len,
                p@.len() == before.len(),
                forall|xx: int, yy: int, j: int|
                    0 <= xx < wi && 0 <= yy < y && 0 <= j < 4 ==> #[trigger] byte_at(p@, wi, xx, yy, j) == row_colors@[yy]@[j],
                forall|xx: int, j: int|
                    0 <= xx < x / 4 && 0 <= j < 4 ==> #[trigger] byte_at(p@, wi, xx, y as int, j) == color@[j],
                forall|i: int| row_start + x <= i < p@.len() ==> #[trigger] p@[i] == before[i],
            decreases row_len - x,
        {
            let o = row_start + x;
            let ghost p0 = p@;
            let ghost x0 = x as int;
            p[o] = color[0];
            p[o + 1] = color[1];
            p[o + 2] = color[2];
            p[o + 3] = color[3];
            x += 4;
            proof {
                assert forall|xx: int, yy: int, j: int|
                    0 <= xx < wi && 0 <= yy < y && 0 <= j < 4 implies #[trigger] byte_at(p@, wi, xx, yy, j) == row_colors@[yy]@[j] by {
                    lemma_earlier_row_offset(wi, y as int, yy, xx);
                    assert(byte_at(p0, wi, xx, yy, j) == row_colors@[yy]@[j]);
                    assert((yy * wi + xx) * 4 + j < row_start) by (nonlinear_arith)
                        requires yy * wi + xx < (y as int) * wi, row_start == (y as int) * wi * 4, 0 <= j < 4;
                }
                assert forall|xx: int, j: int|
                    0 <= xx < x / 4 && 0 <= j < 4 implies #[trigger] byte_at(p@, wi, xx, y as int, j) == color@[j] by {
                    assert((y as int * wi + xx) * 4 + j == row_start + 4 * xx + j) by (nonlinear_arith)
                        requires row_start == (y as int) * wi * 4;
                    if xx < x0 / 4 {
                        assert(byte_at(p0, wi, xx, y as int, j) == color@[j]);
                    } else {
                        assert(xx == x0 / 4);
                        assert(4 * xx == x0);
                    }
                }
            }
        }
        proof {
            assert((y as int + 1) * wi * 4 == row_start + row_len) by (nonlinear_arith)
                requires row_start == (y as int) * wi * 4, row_len == wi * 4;
            assert forall|xx: int, yy: int, j: int|
                0 <= xx < wi && 0 <= yy < y + 1 && 0 <= j < 4 implies #[trigger] byte_at(p@, wi, xx, yy, j) == row_colors@[yy]@[j] by {
                if yy == y {
                    assert(xx < x / 4);
                }
            }
        }
        y += 1;
    }
}

} // verus!
