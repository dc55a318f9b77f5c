use ppne::error::Error;
use ppne::poisson::{
    accumulate_radiances, calculate_poisson_estimate, scale_radiance, sum_exposures,
    validate_channel_count,
};

fn bits(values: &[f32]) -> Vec<u32> {
    values.iter().map(|v| v.to_bits()).collect()
}

fn floats(values: &[u32]) -> Vec<f32> {
    values.iter().map(|v| f32::from_bits(*v)).collect()
}

#[test]
fn two_image_stack_merges_to_expected_values() {
    // Image A: one pixel [10, 20, 30], exposure 1.0, gain 1.0.
    // Image B: one pixel [5, 10, 15], exposure 3.0, gain 1.0.
    // Radiance A = [10, 20, 30], radiance B = [5/3, 10/3, 5], S = 4.
    // Seed = A; step 0: (A + A) * 1/4 = [5, 10, 15];
    // step 1: ([5 + 5/3, 10 + 10/3, 15 + 5]) * 3/4 = [5, 10, 15].
    let buffers = vec![bits(&[10.0, 20.0, 30.0]), bits(&[5.0, 10.0, 15.0])];
    let exposures = bits(&[1.0, 3.0]);
    let gains = bits(&[1.0, 1.0]);
    let merged = calculate_poisson_estimate(&buffers, &exposures, &gains).unwrap();
    assert_eq!(floats(&merged), vec![5.0, 10.0, 15.0]);
}

#[test]
fn single_image_contributes_twice() {
    // One image [10, 20, 30] at exposure 2.0, gain 1.0: radiance is
    // [5, 10, 15], S = 2, and the merge is ((radiance + radiance) * 2) / 2,
    // i.e. twice the radiance -- the seed and the first fold step both
    // draw on image 0.
    let buffers = vec![bits(&[10.0, 20.0, 30.0])];
    let exposures = bits(&[2.0]);
    let gains = bits(&[1.0]);
    let merged = calculate_poisson_estimate(&buffers, &exposures, &gains).unwrap();
    assert_eq!(floats(&merged), vec![10.0, 20.0, 30.0]);
}

#[test]
fn output_length_equals_input_length() {
    let buffers = vec![
        bits(&[1.0, 2.0, 3.0, 4.0, 5.0, 6.0]),
        bits(&[6.0, 5.0, 4.0, 3.0, 2.0, 1.0]),
    ];
    let exposures = bits(&[1.0, 2.0]);
    let gains = bits(&[1.0, 1.0]);
    let merged = calculate_poisson_estimate(&buffers, &exposures, &gains).unwrap();
    assert_eq!(merged.len(), 6);
}

#[test]
fn scaling_every_pixel_by_two_scales_the_output_by_two() {
    let exposures = bits(&[1.0, 3.0]);
    let gains = bits(&[1.0, 1.0]);
    let buffers = vec![bits(&[10.0, 20.0, 30.0]), bits(&[5.0, 10.0, 15.0])];
    let merged = calculate_poisson_estimate(&buffers, &exposures, &gains).unwrap();
    let doubled = vec![bits(&[20.0, 40.0, 60.0]), bits(&[10.0, 20.0, 30.0])];
    let merged_doubled = calculate_poisson_estimate(&doubled, &exposures, &gains).unwrap();
    let expected: Vec<f32> = floats(&merged).iter().map(|v| 2.0 * v).collect();
    assert_eq!(floats(&merged_doubled), expected);
}

#[test]
fn raising_an_exposure_raises_that_images_contribution() {
    // Radiance A is all zeros, radiance B is all ones, so the merged
    // value is exactly B's contribution. Raising B's exposure from 1
    // (S = 2, contribution 1/2) to 3 (S = 4, contribution 3/4) must
    // raise it.
    let radiances = vec![bits(&[0.0, 0.0, 0.0]), bits(&[1.0, 1.0, 1.0])];
    let even = accumulate_radiances(&radiances, &bits(&[1.0, 1.0])).unwrap();
    let skewed = accumulate_radiances(&radiances, &bits(&[1.0, 3.0])).unwrap();
    assert_eq!(floats(&even), vec![0.5, 0.5, 0.5]);
    assert_eq!(floats(&skewed), vec![0.75, 0.75, 0.75]);
    for (lo, hi) in floats(&even).iter().zip(floats(&skewed).iter()) {
        assert!(hi > lo);
    }
}

#[test]
fn radiance_scaler_removes_exposure_and_gain() {
    // Exposure 2.0 and gain 3.0 give a scaling factor of 6 per channel
    // (unit channel coefficients).
    let pixels = bits(&[12.0, 18.0, 30.0]);
    let radiance = scale_radiance(&pixels, 2.0f32.to_bits(), 3.0f32.to_bits()).unwrap();
    assert_eq!(floats(&radiance), vec![2.0, 3.0, 5.0]);
}

#[test]
fn four_channel_layout_is_a_decode_error() {
    assert_eq!(validate_channel_count(4), Err(Error::Decode));
}

#[test]
fn single_channel_layout_is_a_decode_error() {
    assert_eq!(validate_channel_count(1), Err(Error::Decode));
}

#[test]
fn three_channel_layout_is_accepted() {
    assert_eq!(validate_channel_count(3), Ok(()));
}

#[test]
fn empty_image_set_is_an_insufficient_input_error() {
    let buffers: Vec<Vec<u32>> = Vec::new();
    let none: Vec<u32> = Vec::new();
    assert_eq!(
        calculate_poisson_estimate(&buffers, &none, &none),
        Err(Error::InsufficientInput)
    );
}

#[test]
fn empty_radiance_list_is_an_insufficient_input_error() {
    let radiances: Vec<Vec<u32>> = Vec::new();
    let none: Vec<u32> = Vec::new();
    assert_eq!(accumulate_radiances(&radiances, &none), Err(Error::InsufficientInput));
}

#[test]
fn incomplete_rgb_triple_is_a_shape_error() {
    let pixels = bits(&[1.0, 2.0, 3.0, 4.0]);
    assert_eq!(
        scale_radiance(&pixels, 1.0f32.to_bits(), 1.0f32.to_bits()),
        Err(Error::Shape)
    );
    let buffers = vec![bits(&[1.0, 2.0, 3.0, 4.0])];
    let one = bits(&[1.0]);
    assert_eq!(calculate_poisson_estimate(&buffers, &one, &one), Err(Error::Shape));
}

#[test]
fn mismatched_buffer_lengths_are_a_shape_error() {
    let buffers = vec![bits(&[1.0, 2.0, 3.0]), bits(&[1.0, 2.0, 3.0, 4.0, 5.0, 6.0])];
    let two = bits(&[1.0, 1.0]);
    assert_eq!(calculate_poisson_estimate(&buffers, &two, &two), Err(Error::Shape));
    assert_eq!(accumulate_radiances(&buffers, &two), Err(Error::Shape));
}

#[test]
fn misaligned_metadata_is_a_metadata_error() {
    let buffers = vec![bits(&[1.0, 2.0, 3.0])];
    let one = bits(&[1.0]);
    let none: Vec<u32> = Vec::new();
    assert_eq!(calculate_poisson_estimate(&buffers, &none, &one), Err(Error::Metadata));
    assert_eq!(calculate_poisson_estimate(&buffers, &one, &none), Err(Error::Metadata));
    assert_eq!(accumulate_radiances(&buffers, &none), Err(Error::Metadata));
}

#[test]
fn exposures_sum_left_to_right() {
    let exposures = bits(&[1.5, 2.25]);
    assert_eq!(f32::from_bits(sum_exposures(&exposures)), 3.75);
}
