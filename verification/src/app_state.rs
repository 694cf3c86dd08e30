use vstd::prelude::*;

verus! {

/// Number of bytes of an RGBA8 frame of `w` x `h` pixels.
pub open spec fn frame_bytes(w: int, h: int) -> int {
    w * h * 4
}

/// `buf` resized to `n` bytes the way `Vec::resize(n, 0)` does it: cut to
/// its first `n` bytes, or extended with zero bytes.
pub open spec fn resized(buf: Seq<u8>, n: int) -> Seq<u8> {
    if n <= buf.len() {
        buf.take(n)
    } else {
        buf + Seq::new((n - buf.len()) as nat, |i: int| 0u8)
    }
}

/// One layout step of a widget's pixel target: the target takes the size
/// `(w, h)`, its pixel buffer is resized to hold exactly that frame, and the
/// GPU texture must be recreated exactly when the size changed.
pub open spec fn fit_step(size: (u32, u32), buf: Seq<u8>, w: u32, h: u32) -> ((u32, u32), Seq<u8>, bool) {
    ((w, h), resized(buf, frame_bytes(w as int, h as int)), size != (w, h))
}

/// The CPU side of a widget's texture: its current size in pixels and the
/// RGBA8 pixels that are drawn there and uploaded to the GPU.
pub struct PixelTarget {
    pub size_px: (u32, u32),
    pub pixel_buffer: Vec<u8>,
}

impl PixelTarget {
    /// The pixel buffer holds exactly one frame of the current size.
    pub open spec fn wf(&self) -> bool {
        self.pixel_buffer@.len() == frame_bytes(self.size_px.0 as int, self.size_px.1 as int)
    }

    /// The target of a freshly created GPU widget: a 1 x 1 texture holding one
    /// transparent black pixel.
    pub fn new() -> (t: PixelTarget)
        ensures
            t.size_px == (1u32, 1u32),
            t.pixel_buffer@ == seq![0u8, 0u8, 0u8, 0u8],
            t.wf(),
    {
        PixelTarget { size_px: (1, 1), pixel_buffer: vec![0u8, 0u8, 0u8, 0u8] }
    }

    /// Fits the target to an inner drawing area of `w_px` x `h_px` pixels.
    /// Returns whether the GPU texture (and its view and bind group) must be
    /// recreated, which is the case exactly when the size changed.
    pub fn fit(&mut self, w_px: u32, h_px: u32) -> (recreate: bool)
        requires
            frame_bytes(w_px as int, h_px as int) <= usize::MAX,
        ensures
            (final(self).size_px, final(self).pixel_buffer@, recreate)
                == fit_step(old(self).size_px, old(self).pixel_buffer@, w_px, h_px),
            final(self).wf(),
            recreate == (old(self).size_px.0 != w_px || old(self).size_px.1 != h_px),
            final(self).size_px.0 == w_px && final(self).size_px.1 == h_px,
            final(self).pixel_buffer@.len() == (w_px as int) * (h_px as int) * 4,
    {
        let recreate = w_px != self.size_px.0 || h_px != self.size_px.1;
        if recreate {
            self.size_px = (w_px, h_px);
        }
        let needed = (w_px as usize) * (h_px as usize) * 4;
        let ghost before = self.pixel_buffer@;
        if self.pixel_buffer.len() != needed {
            self.pixel_buffer.resize(needed, 0);
        }
        proof {
            let n = frame_bytes(w_px as int, h_px as int);
            assert(needed == n);
            if n > before.len() {
                assert(self.pixel_buffer@ =~= resized(before, n));
            } else {
                assert(self.pixel_buffer@ =~= resized(before, n));
            }
        }
        recreate
    }
}

/// Fitting a target twice to the same size changes nothing the second time
/// and never asks for a second texture.
pub proof fn lemma_fit_twice(size: (u32, u32), buf: Seq<u8>, w: u32, h: u32)
    ensures
        ({
            let (s1, b1, _) = fit_step(size, buf, w, h);
            let (s2, b2, recreate2) = fit_step(s1, b1, w, h);
            s2 == s1 && b2 == b1 && !recreate2
        }),
{
    let n = frame_bytes(w as int, h as int);
    let b1 = resized(buf, n);
    if n > buf.len() {
        assert(b1.len() == n);
    }
    assert(resized(b1, n) =~= b1);
}

/// Fitting to `w` x `h` gives a target of exactly that size whose buffer holds
/// exactly one `w` x `h` RGBA8 frame, new bytes being zero, and asks for a new
/// texture exactly when the width or the height (or both) differ from the
/// target's current size.
pub proof fn lemma_fit_recreates_exactly_on_size_change(size: (u32, u32), buf: Seq<u8>, w: u32, h: u32)
    ensures
        fit_step(size, buf, w, h).2 <==> (size.0 != w || size.1 != h),
        fit_step(size, buf, w, h).0.0 == w,
        fit_step(size, buf, w, h).0.1 == h,
        fit_step(size, buf, w, h).1.len() == (w as int) * (h as int) * 4,
        forall|i: int| buf.len() <= i < (w as int) * (h as int) * 4 ==> #[trigger] fit_step(size, buf, w, h).1[i] == 0,
{
    assert(0 <= (w as int) * (h as int)) by (nonlinear_arith);
}

/// Fitting keeps the pixels already in the buffer up to the new frame's size.
pub proof fn lemma_fit_keeps_prefix(size: (u32, u32), buf: Seq<u8>, w: u32, h: u32, i: int)
    requires
        0 <= i < buf.len(),
        i < frame_bytes(w as int, h as int),
    ensures
        fit_step(size, buf, w, h).1[i] == buf[i],
{
}

/// The indices of the widgets that still lack GPU resources when `gpu_len`
/// GPU widgets exist for `widget_len` widgets: `gpu_len`, ..., `widget_len - 1`.
pub open spec fn pending_slots(gpu_len: int, widget_len: int) -> Seq<usize> {
    Seq::new(if gpu_len < widget_len { (widget_len - gpu_len) as nat } else { 0 }, |i: int| (gpu_len + i) as usize)
}

/// The widget indices for which GPU resources must be created, in creation
/// order: one for every widget beyond the GPU widgets that already exist.
pub fn pending_gpu_slots(gpu_len: usize, widget_len: usize) -> (slots: Vec<usize>)
    ensures
        slots@ == pending_slots(gpu_len as int, widget_len as int),
{
    let mut slots: Vec<usize> = Vec::new();
    let mut idx = gpu_len;
    while idx < widget_len
        invariant
            gpu_len <= idx <= widget_len || (idx == gpu_len && gpu_len >= widget_len),
            slots@ == pending_slots(gpu_len as int, idx as int),
        decreases widget_len - idx,
    {
        slots.push(idx);
        idx += 1;
        assert(slots@ =~= pending_slots(gpu_len as int, idx as int));
    }
    assert(slots@ =~= pending_slots(gpu_len as int, widget_len as int));
    slots
}

/// Creating one GPU widget per pending slot, in order, pairs every widget with
/// the GPU widget at its own index: if GPU widget `i` served widget `i` before,
/// afterwards there is exactly one GPU widget per widget and GPU widget `i`
/// serves widget `i`.
pub proof fn lemma_pending_slots_pair_widgets(served: Seq<usize>, widget_len: usize)
    requires
        served.len() <= widget_len,
        forall|i: int| 0 <= i < served.len() ==> #[trigger] served[i] == i,
    ensures
        served + pending_slots(served.len() as int, widget_len as int) =~= Seq::new(widget_len as nat, |i: int| i as usize),
{
}

} // verus!
