//! The merge itself: the radiance scaler and the weighted accumulator.
//!
//! A pixel buffer is a flat sequence of samples in interleaved RGB layout
//! (length = width x height x 3), each sample the bit pattern of an
//! IEEE-754 binary32 value. The radiance scaler divides every sample by
//! the image's exposure-times-gain scaling factor and the fixed channel
//! coefficient; the weighted accumulator folds the per-image radiance
//! buffers, in image order, into one merged buffer, weighting each step
//! by that image's share of the total exposure.

use vstd::prelude::*;

use crate::error::Error;
use crate::sample::{add_bits, add_samples, div_bits, div_samples, mul_bits, mul_samples};

verus! {

/// Bit pattern of the red channel coefficient (the value 1.0).
pub const RED_COEFFICIENT_BITS: u32 = 0x3F80_0000;

/// Bit pattern of the green channel coefficient (the value 1.0).
pub const GREEN_COEFFICIENT_BITS: u32 = 0x3F80_0000;

/// Bit pattern of the blue channel coefficient (the value 1.0).
pub const BLUE_COEFFICIENT_BITS: u32 = 0x3F80_0000;

/// The channel coefficient that applies at buffer offset `j`: samples
/// cycle red, green, blue.
pub open spec fn coefficient_at(j: int) -> u32 {
    if j % 3 == 0 {
        RED_COEFFICIENT_BITS
    } else if j % 3 == 1 {
        GREEN_COEFFICIENT_BITS
    } else {
        BLUE_COEFFICIENT_BITS
    }
}

/// The radiance estimate at offset `j` of a pixel buffer: the sample
/// divided by (exposure x gain x channel coefficient).
pub open spec fn radiance_at(pixels: Seq<u32>, exposure: u32, gain: u32, j: int) -> u32 {
    div_bits(pixels[j], mul_bits(mul_bits(exposure, gain), coefficient_at(j)))
}

/// One image's whole radiance buffer: its pixel buffer with the
/// exposure and gain contribution removed, samplewise.
pub open spec fn radiance_buffer(pixels: Seq<u32>, exposure: u32, gain: u32) -> Seq<u32> {
    Seq::new(pixels.len(), |j: int| radiance_at(pixels, exposure, gain, j))
}

/// Decides whether a decoded image's channel layout is acceptable: only
/// 3-channel RGB is; alpha, grayscale and other encodings are rejected
/// with a decode error, never converted or truncated.
pub fn validate_channel_count(channels: u32) -> (r: Result<(), Error>)
    ensures
        channels == 3 ==> r == Ok::<(), Error>(()),
        channels != 3 ==> r == Err::<(), Error>(Error::Decode),
{
    if channels == 3 {
        Ok(())
    } else {
        Err(Error::Decode)
    }
}

/// The radiance scaler: removes one image's exposure and gain
/// contribution from its raw pixel samples, per channel. A buffer whose
/// length is not a multiple of 3 (an incomplete RGB triple) is a shape
/// error: it means the decoder violated its contract.
pub fn scale_radiance(pixels: &Vec<u32>, exposure: u32, gain: u32) -> (r: Result<Vec<u32>, Error>)
    ensures
        pixels@.len() % 3 == 0 ==> (r matches Ok(rad) && rad@ == radiance_buffer(
            pixels@,
            exposure,
            gain,
        )),
        pixels@.len() % 3 != 0 ==> r == Err::<Vec<u32>, Error>(Error::Shape),
{
    if pixels.len() % 3 != 0 {
        return Err(Error::Shape);
    }
    let scale = mul_samples(exposure, gain);
    let mut rad: Vec<u32> = Vec::new();
    let mut j: usize = 0;
    while j < pixels.len()
        invariant
            j <= pixels@.len(),
            rad@.len() == j,
            scale == mul_bits(exposure, gain),
            forall|k: int| 0 <= k < j ==> rad@[k] == radiance_at(pixels@, exposure, gain, k),
        decreases pixels@.len() - j,
    {
        let coefficient = if j % 3 == 0 {
            RED_COEFFICIENT_BITS
        } else if j % 3 == 1 {
            GREEN_COEFFICIENT_BITS
        } else {
            BLUE_COEFFICIENT_BITS
        };
        assert(coefficient == coefficient_at(j as int));
        rad.push(div_samples(pixels[j], mul_samples(scale, coefficient)));
        j = j + 1;
    }
    assert(rad@ =~= radiance_buffer(pixels@, exposure, gain));
    Ok(rad)
}

/// The sum of the exposure values, taken left to right starting from
/// zero (bit pattern 0, the value +0.0), exactly as a running
/// single-precision sum accumulates.
pub open spec fn exposure_sum(exposures: Seq<u32>) -> u32
    decreases exposures.len(),
{
    if exposures.len() == 0 {
        0u32
    } else {
        add_bits(exposure_sum(exposures.drop_last()), exposures.last())
    }
}

/// One step of the weighted fold: samplewise, the accumulator plus the
/// image's radiance, times that image's exposure, divided by the total
/// exposure.
pub open spec fn merge_step(acc: Seq<u32>, radiance: Seq<u32>, exposure: u32, total: u32) -> Seq<
    u32,
> {
    Seq::new(acc.len(), |j: int| div_bits(mul_bits(add_bits(acc[j], radiance[j]), exposure), total))
}

/// The accumulator after the first `n` fold steps. It is seeded with
/// the first radiance buffer, and the fold then also processes index 0
/// as its first step, so the first image's radiance contributes twice
/// in that first update — the literal behaviour reproduced here for
/// output compatibility.
pub open spec fn merged_prefix(
    radiances: Seq<Seq<u32>>,
    exposures: Seq<u32>,
    total: u32,
    n: int,
) -> Seq<u32>
    decreases n,
{
    if n <= 0 {
        radiances[0]
    } else {
        merge_step(
            merged_prefix(radiances, exposures, total, n - 1),
            radiances[n - 1],
            exposures[n - 1],
            total,
        )
    }
}

/// The merged radiance buffer: every fold step applied, with the total
/// exposure as the weight denominator.
pub open spec fn merged_radiance(radiances: Seq<Seq<u32>>, exposures: Seq<u32>) -> Seq<u32> {
    merged_prefix(radiances, exposures, exposure_sum(exposures), radiances.len() as int)
}

/// All radiance buffers in one computation must have one length (one
/// width x height): mismatched dimensions are never reconciled.
pub open spec fn uniform_lengths(buffers: Seq<Seq<u32>>) -> bool {
    forall|i: int| 0 <= i < buffers.len() ==> (#[trigger] buffers[i]).len() == buffers[0].len()
}

/// Sums the exposure vector as a running single-precision sum.
pub fn sum_exposures(exposures: &Vec<u32>) -> (r: u32)
    ensures
        r == exposure_sum(exposures@),
{
    let mut total: u32 = 0;
    let mut i: usize = 0;
    while i < exposures.len()
        invariant
            i <= exposures@.len(),
            total == exposure_sum(exposures@.take(i as int)),
        decreases exposures@.len() - i,
    {
        assert(exposures@.take(i + 1).drop_last() =~= exposures@.take(i as int));
        total = add_samples(total, exposures[i]);
        i = i + 1;
    }
    assert(exposures@.take(exposures@.len() as int) =~= exposures@);
    total
}

/// One weighted fold step over whole buffers.
fn weighted_step(acc: &Vec<u32>, radiance: &Vec<u32>, exposure: u32, total: u32) -> (r: Vec<u32>)
    requires
        acc@.len() == radiance@.len(),
    ensures
        r@ == merge_step(acc@, radiance@, exposure, total),
{
    let mut out: Vec<u32> = Vec::new();
    let mut j: usize = 0;
    while j < acc.len()
        invariant
            j <= acc@.len(),
            acc@.len() == radiance@.len(),
            out@.len() == j,
            forall|k: int|
                0 <= k < j ==> out@[k] == div_bits(
                    mul_bits(add_bits(acc@[k], radiance@[k]), exposure),
                    total,
                ),
        decreases acc@.len() - j,
    {
        out.push(div_samples(mul_samples(add_samples(acc[j], radiance[j]), exposure), total));
        j = j + 1;
    }
    assert(out@ =~= merge_step(acc@, radiance@, exposure, total));
    out
}

/// Every fold step keeps the accumulator's length, so the merged buffer
/// is exactly as long as the first radiance buffer: no resizing.
pub proof fn lemma_merged_prefix_len(
    radiances: Seq<Seq<u32>>,
    exposures: Seq<u32>,
    total: u32,
    n: int,
)
    requires
        radiances.len() > 0,
    ensures
        merged_prefix(radiances, exposures, total, n).len() == radiances[0].len(),
    decreases n,
{
    if n > 0 {
        lemma_merged_prefix_len(radiances, exposures, total, n - 1);
    }
}

/// The weighted accumulator: folds the per-image radiance buffers, in
/// image order, into one merged buffer. An empty image set has nothing
/// to seed the fold with and is an insufficient-input error, never a
/// zero-filled success; an exposure vector not index-aligned with the
/// buffers is a metadata error; mismatched buffer lengths are a shape
/// error.
pub fn accumulate_radiances(radiances: &Vec<Vec<u32>>, exposures: &Vec<u32>) -> (r: Result<
    Vec<u32>,
    Error,
>)
    ensures
        radiances@.len() == 0 ==> r == Err::<Vec<u32>, Error>(Error::InsufficientInput),
        radiances@.len() > 0 && exposures@.len() != radiances@.len() ==> r == Err::<
            Vec<u32>,
            Error,
        >(Error::Metadata),
        radiances@.len() > 0 && exposures@.len() == radiances@.len() && !uniform_lengths(
            radiances.deep_view(),
        ) ==> r == Err::<Vec<u32>, Error>(Error::Shape),
        radiances@.len() > 0 && exposures@.len() == radiances@.len() && uniform_lengths(
            radiances.deep_view(),
        ) ==> (r matches Ok(m) && m@ == merged_radiance(radiances.deep_view(), exposures@)
            && m@.len() == radiances@[0]@.len()),
{
    if radiances.len() == 0 {
        return Err(Error::InsufficientInput);
    }
    if exposures.len() != radiances.len() {
        return Err(Error::Metadata);
    }
    let first_len = radiances[0].len();
    let mut i: usize = 0;
    while i < radiances.len()
        invariant
            i <= radiances@.len(),
            radiances@.len() > 0,
            exposures@.len() == radiances@.len(),
            first_len == radiances@[0]@.len(),
            forall|k: int| 0 <= k < i ==> (#[trigger] radiances@[k])@.len() == first_len,
        decreases radiances@.len() - i,
    {
        if radiances[i].len() != first_len {
            proof {
                assert(radiances.deep_view()[i as int] =~= radiances@[i as int]@);
                assert(radiances.deep_view()[0] =~= radiances@[0]@);
                assert(!uniform_lengths(radiances.deep_view()));
            }
            return Err(Error::Shape);
        }
        i = i + 1;
    }
    proof {
        assert forall|k: int| 0 <= k < radiances.deep_view().len() implies (#[trigger] radiances.deep_view()[k]).len() == radiances.deep_view()[0].len() by {
            assert(radiances.deep_view()[k] =~= radiances@[k]@);
            assert(radiances.deep_view()[0] =~= radiances@[0]@);
        }
        assert(uniform_lengths(radiances.deep_view()));
    }

    let total = sum_exposures(exposures);
    let ghost rads = radiances.deep_view();
    let mut acc: Vec<u32> = radiances[0].clone();
    assert(acc@ == merged_prefix(rads, exposures@, total, 0));
    let mut step: usize = 0;
    while step < radiances.len()
        invariant
            step <= radiances@.len(),
            radiances@.len() > 0,
            exposures@.len() == radiances@.len(),
            rads == radiances.deep_view(),
            uniform_lengths(rads),
            total == exposure_sum(exposures@),
            acc@ == merged_prefix(rads, exposures@, total, step as int),
        decreases radiances@.len() - step,
    {
        proof {
            lemma_merged_prefix_len(rads, exposures@, total, step as int);
            assert(rads[step as int] =~= radiances@[step as int]@);
            assert(rads[0] =~= radiances@[0]@);
        }
        acc = weighted_step(&acc, &radiances[step], exposures[step], total);
        step = step + 1;
    }
    proof {
        lemma_merged_prefix_len(rads, exposures@, total, rads.len() as int);
    }
    Ok(acc)
}

/// With a single image, the merged buffer is exactly one weighted step
/// of the first radiance buffer with itself: samplewise
/// ((radiance + radiance) * exposure) / total, where the total is that
/// one exposure added to zero. The seed and the first fold step both
/// draw on image 0, so its radiance enters the sum twice.
pub proof fn lemma_single_image_merge(radiances: Seq<Seq<u32>>, exposures: Seq<u32>)
    requires
        radiances.len() == 1,
        exposures.len() == 1,
    ensures
        exposure_sum(exposures) == add_bits(0u32, exposures[0]),
        merged_radiance(radiances, exposures) == merge_step(
            radiances[0],
            radiances[0],
            exposures[0],
            exposure_sum(exposures),
        ),
        forall|j: int|
            0 <= j < radiances[0].len() ==> merged_radiance(radiances, exposures)[j] == div_bits(
                mul_bits(add_bits(radiances[0][j], radiances[0][j]), exposures[0]),
                exposure_sum(exposures),
            ),
{
    let total = exposure_sum(exposures);
    assert(exposures.drop_last() =~= Seq::<u32>::empty());
    assert(exposure_sum(Seq::<u32>::empty()) == 0u32);
    assert(exposures.last() == exposures[0]);
    assert(exposure_sum(exposures) == add_bits(0u32, exposures[0]));
    assert(merged_prefix(radiances, exposures, total, 1) == merge_step(
        merged_prefix(radiances, exposures, total, 0),
        radiances[0],
        exposures[0],
        total,
    ));
}

/// Every pixel buffer holds complete RGB triples (length a multiple of
/// 3) and all buffers have one length.
pub open spec fn valid_shapes(buffers: Seq<Seq<u32>>) -> bool {
    forall|i: int|
        0 <= i < buffers.len() ==> (#[trigger] buffers[i]).len() % 3 == 0 && buffers[i].len()
            == buffers[0].len()
}

/// The radiance buffer of every image, index-aligned with the image
/// set.
pub open spec fn all_radiances(
    buffers: Seq<Seq<u32>>,
    exposures: Seq<u32>,
    gains: Seq<u32>,
) -> Seq<Seq<u32>> {
    Seq::new(buffers.len(), |i: int| radiance_buffer(buffers[i], exposures[i], gains[i]))
}

/// The whole estimate: every pixel buffer rescaled to radiance, then
/// the weighted fold over the radiance buffers.
pub open spec fn poisson_estimate(
    buffers: Seq<Seq<u32>>,
    exposures: Seq<u32>,
    gains: Seq<u32>,
) -> Seq<u32> {
    merged_radiance(all_radiances(buffers, exposures, gains), exposures)
}

/// The poisson estimate of an image stack: rescales each pixel buffer
/// into a radiance buffer, removing that image's exposure and gain
/// contribution, then folds the radiance buffers in image order into
/// the merged high-dynamic-range estimate.
///
/// Errors short-circuit the whole computation: an empty stack is an
/// insufficient-input error; exposure or gain vectors not index-aligned
/// with the stack are a metadata error; a buffer with incomplete RGB
/// triples, or buffers of mismatched lengths, are a shape error.
pub fn calculate_poisson_estimate(
    buffers: &Vec<Vec<u32>>,
    exposures: &Vec<u32>,
    gains: &Vec<u32>,
) -> (r: Result<Vec<u32>, Error>)
    ensures
        buffers@.len() == 0 ==> r == Err::<Vec<u32>, Error>(Error::InsufficientInput),
        buffers@.len() > 0 && (exposures@.len() != buffers@.len() || gains@.len()
            != buffers@.len()) ==> r == Err::<Vec<u32>, Error>(Error::Metadata),
        buffers@.len() > 0 && exposures@.len() == buffers@.len() && gains@.len() == buffers@.len()
            && !valid_shapes(buffers.deep_view()) ==> r == Err::<Vec<u32>, Error>(Error::Shape),
        buffers@.len() > 0 && exposures@.len() == buffers@.len() && gains@.len() == buffers@.len()
            && valid_shapes(buffers.deep_view()) ==> (r matches Ok(m) && m@ == poisson_estimate(
            buffers.deep_view(),
            exposures@,
            gains@,
        ) && m@.len() == buffers@[0]@.len()),
{
    if buffers.len() == 0 {
        return Err(Error::InsufficientInput);
    }
    if exposures.len() != buffers.len() || gains.len() != buffers.len() {
        return Err(Error::Metadata);
    }
    let first_len = buffers[0].len();
    let ghost bufs = buffers.deep_view();
    let mut radiances: Vec<Vec<u32>> = Vec::new();
    let mut i: usize = 0;
    while i < buffers.len()
        invariant
            i <= buffers@.len(),
            buffers@.len() > 0,
            exposures@.len() == buffers@.len(),
            gains@.len() == buffers@.len(),
            bufs == buffers.deep_view(),
            first_len == buffers@[0]@.len(),
            radiances@.len() == i,
            forall|k: int| 0 <= k < i ==> (#[trigger] buffers@[k])@.len() % 3 == 0,
            forall|k: int| 0 <= k < i ==> (#[trigger] buffers@[k])@.len() == first_len,
            forall|k: int|
                0 <= k < i ==> (#[trigger] radiances@[k])@ == radiance_buffer(
                    bufs[k],
                    exposures@[k],
                    gains@[k],
                ),
        decreases buffers@.len() - i,
    {
        proof {
            assert(bufs[i as int] =~= buffers@[i as int]@);
            assert(bufs[0] =~= buffers@[0]@);
        }
        if buffers[i].len() % 3 != 0 || buffers[i].len() != first_len {
            proof {
                assert(!valid_shapes(bufs));
            }
            return Err(Error::Shape);
        }
        match scale_radiance(&buffers[i], exposures[i], gains[i]) {
            Ok(rad) => {
                radiances.push(rad);
            },
            Err(_) => {
                proof {
                    assert(false);
                }
                return Err(Error::Shape);
            },
        }
        i = i + 1;
    }
    proof {
        assert forall|k: int| 0 <= k < bufs.len() implies (#[trigger] bufs[k]).len() % 3 == 0
            && bufs[k].len() == bufs[0].len() by {
            assert(bufs[k] =~= buffers@[k]@);
            assert(bufs[0] =~= buffers@[0]@);
        }
        assert(valid_shapes(bufs));
        assert forall|k: int| 0 <= k < radiances.deep_view().len() implies (
        #[trigger] radiances.deep_view()[k]) == all_radiances(bufs, exposures@, gains@)[k] by {
            assert(radiances.deep_view()[k] =~= radiances@[k]@);
        }
        assert(radiances.deep_view() =~= all_radiances(bufs, exposures@, gains@));
        assert(uniform_lengths(radiances.deep_view()));
    }
    match accumulate_radiances(&radiances, exposures) {
        Ok(merged) => Ok(merged),
        Err(_) => {
            proof {
                assert(false);
            }
            Err(Error::Unknown)
        },
    }
}

} // verus!
