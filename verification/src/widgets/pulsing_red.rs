use vstd::prelude::*;
use super::{painted, frame_offsets_fit_u32};

verus! {

/// The green, blue and alpha bytes of every pixel of the pulsing red widget.
pub const PULSE_GREEN: u8 = 30;
pub const PULSE_BLUE: u8 = 30;
pub const PULSE_ALPHA: u8 = 255;

/// The RGBA8 color of the pulsing red widget for a given red intensity.
pub open spec fn pulse_color(red: u8) -> Seq<u8> {
    seq![red, PULSE_GREEN, PULSE_BLUE, PULSE_ALPHA]
}

proof fn lemma_offset_bound(w: u32, h: u32, x: u32, y: u32)
    requires
        x < w,
        y < h,
        frame_offsets_fit_u32(w as int, h as int),
    ensures
        (y * w + x) * 4 <= u32::MAX,
        y * w + x < w * h,
{
    assert(y * w + x < w * h) by (nonlinear_arith)
        requires x < w, y < h;
}

/// Draws one frame of the pulsing red widget: every pixel of the `w` x `h`
/// frame at the front of `p` becomes `(red, 30, 30, 255)`; the bytes after
/// the frame are left as they were.
pub fn fill_pulse_frame(w: u32, h: u32, p: &mut [u8], red: u8)
    requires
        (w as int) * (h as int) * 4 <= old(p)@.len(),
        frame_offsets_fit_u32(w as int, h as int),
    ensures
        painted(final(p)@, old(p)@, (w as int) * (h as int), pulse_color(red)),
{
    let ghost before = p@;
    let ghost color = pulse_color(red);
    let mut y: u32 = 0;
    while y < h
        invariant
            y <= h,
            (w as int) * (h as int) * 4 <= before.len(),
            frame_offsets_fit_u32(w as int, h as int),
            color == pulse_color(red),
            painted(p@, before, (y as int) * (w as int), color),
        decreases h - y,
    {
        let mut x: u32 = 0;
        while x < w
            invariant
                x <= w,
                y < h,
                (w as int) * (h as int) * 4 <= before.len(),
                frame_offsets_fit_u32(w as int, h as int),
                color == pulse_color(red),
                painted(p@, before, (y as int) * (w as int) + x, color),
            decreases w - x,
        {
            proof { lemma_offset_bound(w, h, x, y); }
            let o = ((y * w + x) * 4) as usize;
            let ghost k: int = (y as int) * (w as int) + x;
            assert(o == 4 * k);
            p[o] = red;
            p[o + 1] = PULSE_GREEN;
            p[o + 2] = PULSE_BLUE;
            p[o + 3] = PULSE_ALPHA;
            x += 1;
            assert(painted(p@, before, k + 1, color)) by {
                assert forall|i: int| 0 <= i < 4 * (k + 1) implies #[trigger] p@[i] == color[i % 4] by {
                    if i >= 4 * k {
                        assert(i % 4 == i - 4 * k);
                    }
                }
            }
        }
        assert((y as int) * (w as int) + w == (y + 1) * (w as int)) by (nonlinear_arith);
        y += 1;
    }
    assert((h as int) * (w as int) == (w as int) * (h as int)) by (nonlinear_arith);
}

} // verus!
