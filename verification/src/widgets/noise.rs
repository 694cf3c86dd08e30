use vstd::prelude::*;
use rand::rngs::SmallRng;
use rand::RngCore;
use rand::SeedableRng;

verus! {

/// rand's small, fast pseudo-random generator, carried through unopened.
#[verifier::external_type_specification]
#[verifier::external_body]
pub struct ExSmallRng(SmallRng);

/// Calls `rand::SeedableRng::seed_from_u64` for `SmallRng`. The generator's
/// state is opaque here, so nothing is stated of the result.
#[verifier::external_body]
fn seeded_small_rng(seed: u64) -> (rng: SmallRng) {
    SmallRng::seed_from_u64(seed)
}

/// Calls `rand::RngCore::next_u32` on a `SmallRng`: the next pseudo-random
/// word of the generator. Any `u32` may come back, so nothing is stated of
/// the result; the call never panics.
#[verifier::external_body]
fn next_sample(rng: &mut SmallRng) -> (sample: u32) {
    rng.next_u32()
}

/// The gray level that a random word gives a noise pixel: its low byte.
pub open spec fn sample_gray(sample: u32) -> u8 {
    (sample % 256) as u8
}

/// `p` is `before` with its first `count` pixels each an opaque gray (equal
/// red, green and blue bytes, alpha 255), every later byte unchanged.
pub open spec fn gray_painted(p: Seq<u8>, before: Seq<u8>, count: int) -> bool {
    &&& p.len() == before.len()
    &&& forall|k: int| #![trigger p[4 * k]]
        0 <= k < count ==> p[4 * k + 1] == p[4 * k] && p[4 * k + 2] == p[4 * k] && p[4 * k + 3] == 255
    &&& forall|i: int| 4 * count <= i < p.len() ==> #[trigger] p[i] == before[i]
}

/// `p` is `before` with pixel `k` (for `k < samples.len()`) set to the opaque
/// gray of word `samples[k]`, every later byte unchanged.
pub open spec fn painted_from_samples(p: Seq<u8>, before: Seq<u8>, samples: Seq<u32>) -> bool {
    &&& p.len() == before.len()
    &&& 4 * samples.len() <= p.len()
    &&& forall|k: int| #![trigger samples[k]]
        0 <= k < samples.len() ==> p[4 * k] == sample_gray(samples[k]) && p[4 * k + 1] == sample_gray(samples[k])
            && p[4 * k + 2] == sample_gray(samples[k]) && p[4 * k + 3] == 255
    &&& forall|i: int| 4 * samples.len() <= i < p.len() ==> #[trigger] p[i] == before[i]
}

/// A frame painted from words is an opaque gray frame over as many pixels as
/// there were words.
pub proof fn lemma_painted_from_samples_is_gray(p: Seq<u8>, before: Seq<u8>, samples: Seq<u32>)
    requires
        painted_from_samples(p, before, samples),
    ensures
        gray_painted(p, before, samples.len() as int),
{
    assert forall|k: int| #![trigger p[4 * k]] 0 <= k < samples.len() implies
        p[4 * k + 1] == p[4 * k] && p[4 * k + 2] == p[4 * k] && p[4 * k + 3] == 255 by {
        let g = sample_gray(samples[k]);
        assert(p[4 * k] == g && p[4 * k + 1] == g && p[4 * k + 2] == g && p[4 * k + 3] == 255);
    }
}

/// The noise pixel drawn for one random word: its low byte as red, green
/// and blue, fully opaque.
pub fn noise_pixel(sample: u32) -> (px: [u8; 4])
    ensures
        px@ == seq![sample_gray(sample), sample_gray(sample), sample_gray(sample), 255u8],
{
    let v = (sample & 0xFF) as u8;
    assert(sample & 0xFF == sample % 256) by (bit_vector);
    [v, v, v, 255]
}

/// A widget that fills its frame with random gray pixels every frame.
pub struct Noise {
    pub rng: SmallRng,
}

impl Noise {
    /// A noise widget whose generator is seeded with `seed`.
    pub fn new(seed: u64) -> (noise: Noise) {
        Noise { rng: seeded_small_rng(seed) }
    }

    /// The widget's display name.
    pub fn name(&self) -> (name: &'static str)
        ensures
            name@ == "Noise"@,
    {
        "Noise"
    }

    /// Draws one frame: each of the `w * h` pixels at the front of `p` gets a
    /// fresh random gray level (one generator word per pixel, in pixel order)
    /// and alpha 255; bytes after the frame are left as they were.
    pub fn draw_into(&mut self, w: u32, h: u32, p: &mut [u8])
        requires
            (w as int) * (h as int) * 4 <= old(p)@.len(),
        ensures
            gray_painted(final(p)@, old(p)@, (w as int) * (h as int)),
            exists|samples: Seq<u32>|
                samples.len() == (w as int) * (h as int) && #[trigger] painted_from_samples(final(p)@, old(p)@, samples),
    {
        let ghost before = p@;
        let len = p.len();
        assert((w as int) * (h as int) <= usize::MAX);
        let n = (w as usize) * (h as usize);
        let mut i: usize = 0;
        let ghost mut samples: Seq<u32> = Seq::empty();
        while i < n
            invariant
                i <= n,
                n == (w as int) * (h as int),
                4 * n <= before.len(),
                len == before.len(),
                samples.len() == i,
                painted_from_samples(p@, before, samples),
            decreases n - i,
        {
            let sample = next_sample(&mut self.rng);
            let px = noise_pixel(sample);
            proof { samples = samples.push(sample); }
            let o = i * 4;
            p[o] = px[0];
            p[o + 1] = px[1];
            p[o + 2] = px[2];
            p[o + 3] = px[3];
            i += 1;
            assert(samples[i - 1] == sample);
        }
        proof { lemma_painted_from_samples_is_gray(p@, before, samples); }
    }
}

} // verus!
