use vstd::prelude::*;
use super::painted;

verus! {

/// Clears the node widget's frame to its background color: every complete
/// four-byte pixel of `p` becomes `background`; a trailing partial pixel
/// (fewer than four bytes) is left as it was.
pub fn fill_background(p: &mut [u8], background: [u8; 4])
    ensures
        painted(final(p)@, old(p)@, old(p)@.len() as int / 4, background@),
{
    let ghost before = p@;
    let len = p.len();
    let pixels = len / 4;
    let mut k: usize = 0;
    while k < pixels
        invariant
            k <= pixels,
            pixels == before.len() / 4,
            len == before.len(),
            painted(p@, before, k as int, background@),
        decreases pixels - k,
    {
        let o = k * 4;
        p[o] = background[0];
        p[o + 1] = background[1];
        p[o + 2] = background[2];
        p[o + 3] = background[3];
        k += 1;
        assert(painted(p@, before, k as int, background@)) by {
            assert forall|i: int| 0 <= i < 4 * k implies #[trigger] p@[i] == background@[i % 4] by {
                if i >= 4 * (k - 1) {
                    assert(i % 4 == i - 4 * (k - 1));
                }
            }
        }
    }
}

} // verus!
