//! Thresholding of 8-bit RGB samples into pure black and pure white.
//!
//! Samples are stored pixel after pixel, three per pixel in the order red,
//! green, blue. Samples that follow the last complete pixel are kept as they
//! are.

use vstd::prelude::*;

verus! {

/// Luminance of a colour in thousandths of the 0..=255 scale: a thousand
/// times the weighted sum 0.299 R + 0.587 G + 0.114 B.
pub open spec fn luma_thousandths(r: u8, g: u8, b: u8) -> int {
    299 * r + 587 * g + 114 * b
}

/// The value that all three channels of a pixel take when it is binarized:
/// white where the luminance, the weighted sum itself, is strictly above the
/// threshold, black otherwise.
pub open spec fn tone(r: u8, g: u8, b: u8, threshold: u8) -> u8 {
    if luma_thousandths(r, g, b) > 1000 * threshold {
        255
    } else {
        0
    }
}

/// Number of complete pixels in a run of samples.
pub open spec fn pixel_count(samples: Seq<u8>) -> int {
    samples.len() as int / 3
}

/// Sample `i` of the binarized form of `samples`.
pub open spec fn binarized_at(samples: Seq<u8>, threshold: u8, i: int) -> u8
    recommends
        0 <= i < samples.len(),
{
    let p = i / 3;
    if p < pixel_count(samples) {
        tone(samples[3 * p], samples[3 * p + 1], samples[3 * p + 2], threshold)
    } else {
        samples[i]
    }
}

/// The binarized form of `samples`: every complete pixel replaced by its tone.
pub open spec fn binarized(samples: Seq<u8>, threshold: u8) -> Seq<u8> {
    Seq::new(samples.len(), |i: int| binarized_at(samples, threshold, i))
}

/// Every complete pixel is pure black or pure white.
pub open spec fn is_binary(samples: Seq<u8>) -> bool {
    forall|p: int|
        0 <= p < pixel_count(samples) ==> {
            &&& #[trigger] samples[3 * p] == samples[3 * p + 1]
            &&& samples[3 * p] == samples[3 * p + 2]
            &&& (samples[3 * p] == 0 || samples[3 * p] == 255)
        }
}

/// Luminance of one colour, in thousandths.
pub fn luminance_thousandths(r: u8, g: u8, b: u8) -> (l: u32)
    ensures
        l == luma_thousandths(r, g, b),
{
    299 * (r as u32) + 587 * (g as u32) + 114 * (b as u32)
}

/// Binarizes one pixel and returns the value of each of its channels.
pub fn binarize_pixel(r: u8, g: u8, b: u8, threshold: u8) -> (v: u8)
    ensures
        v == tone(r, g, b, threshold),
{
    if luminance_thousandths(r, g, b) > 1000 * (threshold as u32) {
        255
    } else {
        0
    }
}

/// Binarizes `samples` in place.
pub fn threshold_samples(samples: &mut Vec<u8>, threshold: u8)
    ensures
        final(samples)@ == binarized(old(samples)@, threshold),
{
    let len: usize = samples.len();
    let mut at: usize = 0;
    while len - at >= 3
        invariant
            len == old(samples)@.len(),
            samples@.len() == len,
            at <= len,
            at % 3 == 0,
            forall|i: int| 0 <= i < at ==> samples@[i] == binarized_at(old(samples)@, threshold, i),
            forall|i: int| at <= i < len ==> samples@[i] == old(samples)@[i],
        decreases len - at,
    {
        let v = binarize_pixel(samples[at], samples[at + 1], samples[at + 2], threshold);
        samples.set(at, v);
        samples.set(at + 1, v);
        samples.set(at + 2, v);
        at += 3;
    }
    assert(samples@ =~= binarized(old(samples)@, threshold));
}

/// Black has the least luminance and white the largest.
pub proof fn lemma_luma_bounds(r: u8, g: u8, b: u8)
    ensures
        0 <= luma_thousandths(r, g, b) <= 255000,
        luma_thousandths(0, 0, 0) == 0,
        luma_thousandths(255, 255, 255) == 255000,
{
}

/// Binarizing leaves only pure black and pure white pixels.
pub proof fn lemma_binarized_is_binary(samples: Seq<u8>, threshold: u8)
    ensures
        is_binary(binarized(samples, threshold)),
        binarized(samples, threshold).len() == samples.len(),
{
    let out = binarized(samples, threshold);
    assert forall|p: int| 0 <= p < pixel_count(out) implies {
        &&& #[trigger] out[3 * p] == out[3 * p + 1]
        &&& out[3 * p] == out[3 * p + 2]
        &&& (out[3 * p] == 0 || out[3 * p] == 255)
    } by {
        assert((3 * p) / 3 == p && (3 * p + 1) / 3 == p && (3 * p + 2) / 3 == p);
    }
}

/// Binarizing twice with one threshold gives what binarizing once gives.
pub proof fn lemma_binarized_idempotent(samples: Seq<u8>, threshold: u8)
    ensures
        binarized(binarized(samples, threshold), threshold) == binarized(samples, threshold),
{
    let once = binarized(samples, threshold);
    let twice = binarized(once, threshold);
    assert forall|i: int| 0 <= i < once.len() implies twice[i] == once[i] by {
        let p = i / 3;
        if p < pixel_count(once) {
            assert((3 * p) / 3 == p && (3 * p + 1) / 3 == p && (3 * p + 2) / 3 == p);
            lemma_luma_bounds(samples[3 * p], samples[3 * p + 1], samples[3 * p + 2]);
        }
    }
    assert(twice =~= once);
}

/// A run of samples that is already binary is left as it is, whatever the
/// threshold below 255.
pub proof fn lemma_binary_is_fixed(samples: Seq<u8>, threshold: u8)
    requires
        is_binary(samples),
        threshold < 255,
    ensures
        binarized(samples, threshold) == samples,
{
    let out = binarized(samples, threshold);
    assert forall|i: int| 0 <= i < samples.len() implies out[i] == samples[i] by {
        let p = i / 3;
        if p < pixel_count(samples) {
            assert(samples[3 * p] == samples[3 * p + 1]);
            assert(i == 3 * p || i == 3 * p + 1 || i == 3 * p + 2);
        }
    }
    assert(out =~= samples);
}

} // verus!
