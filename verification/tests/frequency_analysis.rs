use synthphone_e_vocal_dsp::dsp::frequency_analysis::{
    collect_harmonics, correct_sub_octave, find_peak_bin, harmonic_downsample_limit,
    quantization_levels, sample_rate_reduce, yin_window, YinWindow,
};

#[test]
fn collect_harmonics_lists_multiples() {
    assert_eq!(collect_harmonics(5), [5, 10, 15, 20, 25, 30, 35, 40]);
    assert_eq!(collect_harmonics(0), [0; 8]);
    assert_eq!(collect_harmonics(1), [1, 2, 3, 4, 5, 6, 7, 8]);
}

#[test]
fn collect_harmonics_at_the_largest_fundamental() {
    let f = usize::MAX / 8;
    let h = collect_harmonics(f);
    assert_eq!(h[0], f);
    assert_eq!(h[7], f * 8);
}

/// Runs the sample-rate reducer over `samples` from a fresh hold cycle.
fn reduce<T: Copy>(samples: &[T], factor: i8, start: i32, held: T) -> (Vec<T>, i32) {
    let mut counter = start;
    let mut held_value = held;
    let out = samples
        .iter()
        .map(|s| sample_rate_reduce(*s, factor, &mut counter, &mut held_value))
        .collect();
    (out, counter)
}

#[test]
fn sample_and_hold_repeats_every_factor_samples() {
    let (out, c) = reduce(&[1, 2, 3, 4, 5, 6, 7], 3, 0, 0);
    assert_eq!(out, vec![1, 1, 1, 4, 4, 4, 7]);
    assert_eq!(c, 1);
}

#[test]
fn sample_and_hold_of_floats() {
    let samples = [0.1f32, -0.2, 0.3, -0.4, 0.5];
    let (out, c) = reduce(&samples, 2, 0, 0.0);
    assert_eq!(out, vec![0.1, 0.1, 0.3, 0.3, 0.5]);
    assert_eq!(c, 1);
}

#[test]
fn sample_and_hold_with_negative_factor_cycles_by_magnitude() {
    let (out, c) = reduce(&[1, 2, 3, 4, 5, 6], -3, 0, 0);
    assert_eq!(out, vec![1, 1, 1, 4, 4, 4]);
    assert_eq!(c, 0);
}

#[test]
fn sample_and_hold_with_zero_factor() {
    let (out, c) = reduce(&[1, 2, 3, 4], 0, 0, 0);
    assert_eq!(out, vec![1, 2, 3, 4]);
    assert_eq!(c, 0);
    let (out, c) = reduce(&[1, 2], 0, 5, 9);
    assert_eq!(out, vec![9, 9]);
    assert_eq!(c, 5);
}

#[test]
fn sample_and_hold_keeps_the_sign_of_a_negative_counter() {
    let (out, c) = reduce(&[1, 2, 3, 4], 3, -5, 0);
    assert_eq!(out, vec![0, 0, 3, 3]);
    assert_eq!(c, 2);
}

#[test]
fn sample_and_hold_factor_one_passes_samples() {
    let (out, c) = reduce(&[1, 2, 3], 1, 0, 0);
    assert_eq!(out, vec![1, 2, 3]);
    assert_eq!(c, 0);
}

#[test]
fn downsample_limit_keeps_harmonics_in_range() {
    assert_eq!(harmonic_downsample_limit(1, 10, 2), 5);
    assert_eq!(harmonic_downsample_limit(1, 10, 3), 3);
    assert_eq!(harmonic_downsample_limit(3, 10, 3), 3);
    assert_eq!(harmonic_downsample_limit(0, 7, 8), 0);
}

#[test]
fn sub_octave_prefers_half_then_third() {
    let mut mask = vec![false; 32];
    mask[4] = true;
    mask[8] = true;
    assert_eq!(correct_sub_octave(8, 2, &mask), 4);
    assert_eq!(correct_sub_octave(12, 2, &mask), 4);
    assert_eq!(correct_sub_octave(13, 2, &mask), 4);
    assert_eq!(correct_sub_octave(20, 2, &mask), 20);
}

#[test]
fn sub_octave_respects_min_bin() {
    let mut mask = vec![false; 32];
    mask[4] = true;
    assert_eq!(correct_sub_octave(8, 5, &mask), 8);
    assert_eq!(correct_sub_octave(12, 5, &mask), 12);
}

#[test]
fn sub_octave_takes_one_step_only() {
    let mask = vec![true; 32];
    assert_eq!(correct_sub_octave(16, 1, &mask), 8);
    assert_eq!(correct_sub_octave(1, 0, &mask), 0);
    assert_eq!(correct_sub_octave(0, 0, &mask), 0);
}

#[test]
fn peak_bin_is_first_maximum() {
    let keys = [0, 5, 9, 3, 9, 1];
    assert_eq!(find_peak_bin(&keys, 0, 6), 2);
    assert_eq!(find_peak_bin(&keys, 3, 6), 4);
    assert_eq!(find_peak_bin(&keys, 3, 4), 3);
}

#[test]
fn peak_bin_of_silence_is_lo() {
    let keys = [7, 0, 0, 0, 7];
    assert_eq!(find_peak_bin(&keys, 1, 4), 1);
    assert_eq!(find_peak_bin(&keys, 2, 2), 2);
}

#[test]
fn peak_bin_from_float_magnitudes() {
    // Non-negative floats order as their bit patterns do.
    let hps: [f32; 6] = [0.0, 0.25, 0.75, 0.5, 0.75, 0.0];
    let keys: Vec<u32> = hps.iter().map(|v| if *v > 0.0 { v.to_bits() } else { 0 }).collect();
    assert_eq!(find_peak_bin(&keys, 0, 6), 2);
}

#[test]
fn quantization_levels_are_powers_of_two() {
    assert_eq!(quantization_levels(0), 1);
    assert_eq!(quantization_levels(1), 2);
    assert_eq!(quantization_levels(8), 256);
    assert_eq!(quantization_levels(16), 65536);
    assert_eq!(quantization_levels(63), 1u64 << 63);
}

#[test]
fn yin_window_for_a_full_frame() {
    assert_eq!(
        yin_window(1024, 10, 75),
        Some(YinWindow { frame_len: 128, min_lag: 10, max_lag: 75 })
    );
    assert_eq!(
        yin_window(4096, 10, 200),
        Some(YinWindow { frame_len: 128, min_lag: 10, max_lag: 126 })
    );
}

#[test]
fn yin_window_for_short_frames() {
    assert_eq!(
        yin_window(200, 10, 75),
        Some(YinWindow { frame_len: 25, min_lag: 10, max_lag: 23 })
    );
    assert_eq!(yin_window(96, 10, 75), None);
    assert_eq!(yin_window(16, 1, 75), None);
    assert_eq!(yin_window(0, 0, 75), None);
}
