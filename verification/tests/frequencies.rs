use synthphone_e_vocal_dsp::audio::frequencies::{
    find_nearest_note_frequency, find_nearest_note_in_key, nearest_index, note_table, NUM_NOTES,
};

/// Hertz to the library's unit, hundredths of a hertz.
fn centihertz(hz: f32) -> u32 {
    (hz * 100.0).round() as u32
}

/// The library's unit, hundredths of a hertz, to hertz.
fn hertz(centi: u32) -> f32 {
    centi as f32 / 100.0
}

fn nearest_note(frequency: f32) -> f32 {
    hertz(find_nearest_note_frequency(centihertz(frequency)))
}

#[test]
fn test_find_nearest_note_frequency_exact_match() {
    let frequency = 440.0;
    let expected = 440.0;
    let result = nearest_note(frequency);
    assert_eq!(result, expected);
}

#[test]
fn test_find_nearest_note_frequency_in_between() {
    let frequency = 445.0;
    let expected = 440.0;
    let result = nearest_note(frequency);
    assert_eq!(result, expected);
}

#[test]
fn test_find_nearest_note_frequency_below_range() {
    let frequency = 10.0;
    let expected = 16.35;
    let result = nearest_note(frequency);
    assert_eq!(result, expected);
}

#[test]
fn test_find_nearest_note_frequency_above_range() {
    let frequency = 5000.0;
    let result = nearest_note(frequency);
    assert!(result > 4900.0 && result < 5100.0);
}

#[test]
fn test_find_nearest_note_frequency_mid_point() {
    let frequency = 55.0;
    let result = nearest_note(frequency);
    assert!((result - 55.0).abs() < 0.1);
}

#[test]
fn test_find_nearest_note_frequency_edge_case_low() {
    let frequency = 16.0;
    let result = nearest_note(frequency);
    assert!((result - 16.35).abs() < 0.1);
}

#[test]
fn test_find_nearest_note_frequency_edge_case_high() {
    let frequency = 4999.0;
    let result = nearest_note(frequency);
    assert!(result > 4900.0 && result < 5100.0);
}

#[test]
fn test_find_nearest_note_frequency_very_close_lower() {
    let frequency = 110.1;
    let expected = 110.0;
    let result = nearest_note(frequency);
    assert_eq!(result, expected);
}

#[test]
fn test_find_nearest_note_frequency_very_close_upper() {
    let frequency = 109.9;
    let expected = 110.0;
    let result = nearest_note(frequency);
    assert_eq!(result, expected);
}

#[test]
fn note_table_spans_c0_to_b8() {
    let table = note_table();
    assert_eq!(table.len(), NUM_NOTES);
    assert_eq!(table[0], 1635);
    assert_eq!(table[57], 44000);
    assert_eq!(table[NUM_NOTES - 1], 790213);
    for i in 1..NUM_NOTES {
        assert!(table[i - 1] < table[i]);
    }
}

#[test]
fn nearest_note_far_above_range_is_b8() {
    assert_eq!(find_nearest_note_frequency(2_000_000), 790213);
    assert_eq!(find_nearest_note_frequency(u32::MAX), 790213);
}

#[test]
fn nearest_note_of_zero_is_c0() {
    assert_eq!(find_nearest_note_frequency(0), 1635);
}

#[test]
fn nearest_in_key_ties_go_to_earlier_entry() {
    let scale = [10000, 20000, 30000];
    assert_eq!(find_nearest_note_in_key(15000, &scale), 10000);
    assert_eq!(find_nearest_note_in_key(15001, &scale), 20000);
    assert_eq!(nearest_index(&scale, 25000), 1);
}

#[test]
fn nearest_in_key_of_unsorted_table() {
    let scale = [50000, 10000, 30000];
    assert_eq!(find_nearest_note_in_key(12000, &scale), 10000);
    assert_eq!(nearest_index(&scale, 45000), 0);
}
