//! Software drawing of the widgets into RGBA8 pixel buffers (four bytes per
//! pixel, rows top to bottom, pixels left to right).

pub mod pulsing_red;
pub mod vertical_gradient;
pub mod node_widget;
pub mod noise;

use vstd::prelude::*;

verus! {

/// `p` is `before` with its first `count` pixels (the first `4 * count`
/// bytes) set to `color`, every later byte unchanged.
pub open spec fn painted(p: Seq<u8>, before: Seq<u8>, count: int, color: Seq<u8>) -> bool {
    &&& p.len() == before.len()
    &&& forall|i: int| 0 <= i < 4 * count ==> #[trigger] p[i] == color[i % 4]
    &&& forall|i: int| 4 * count <= i < p.len() ==> #[trigger] p[i] == before[i]
}

/// A `w` x `h` frame can be addressed with 32-bit byte offsets: the offset
/// `(y * w + x) * 4` of its last pixel fits in a `u32`.
pub open spec fn frame_offsets_fit_u32(w: int, h: int) -> bool {
    w == 0 || h == 0 || (w * h - 1) * 4 <= u32::MAX
}

/// Byte `j` (0 = red, 1 = green, 2 = blue, 3 = alpha) of the pixel at column
/// `x`, row `y` of a frame `w` pixels wide stored in `p`.
pub open spec fn byte_at(p: Seq<u8>, w: int, x: int, y: int, j: int) -> u8 {
    p[(y * w + x) * 4 + j]
}

/// A pixel in an earlier row lies before every pixel of row `y`.
pub(crate) proof fn lemma_earlier_row_offset(w: int, y: int, yy: int, xx: int)
    requires
        0 <= yy < y,
        0 <= xx < w,
    ensures
        yy * w + xx < y * w,
{
    assert(yy * w + xx < y * w) by (nonlinear_arith)
        requires 0 <= yy < y, 0 <= xx < w;
}

} // verus!
