use synthphone_e_vocal_dsp::audio::keys::{
    frequency_table_position, get_key, get_key_name, get_mode_name, get_note_name, key_entry,
    key_index, NUM_KEYS,
};

#[test]
fn note_names_of_c_major() {
    let scale = get_key(0);
    let names: Vec<&str> = (1..=7).map(|n| get_note_name(n, scale)).collect();
    assert_eq!(names, vec!["C", "D", "E", "F", "G", "A", "B"]);
}

#[test]
fn note_names_wrap_after_the_seventh_degree() {
    let scale = get_key(3);
    for note in 1..=5 {
        assert_eq!(get_note_name(note + 7, scale), get_note_name(note, scale));
    }
    assert_eq!(get_note_name(8, scale), "A");
    assert_eq!(get_note_name(12, scale), "E");
}

#[test]
fn note_names_out_of_range_are_empty() {
    let scale = get_key(0);
    for note in [0i8, 13, 14, 100, 127, -1, -128] {
        assert_eq!(get_note_name(note, scale), "");
    }
}

#[test]
fn keys_fall_back_to_c_major() {
    let c_major = get_key(0).note_names;
    for key in [-128i8, -1, 24, 25, 127] {
        assert_eq!(get_key(key).note_names, c_major);
        assert_eq!(get_key_name(key), "C Major");
        assert_eq!(get_mode_name(key), "Major");
        assert_eq!(key_index(key), 0);
    }
}

#[test]
fn mode_names_split_at_twelve() {
    for key in 0..12i8 {
        assert_eq!(get_mode_name(key), "Major");
    }
    for key in 12..24i8 {
        assert_eq!(get_mode_name(key), "Minor");
    }
}

#[test]
fn key_names_of_the_table() {
    let names: Vec<&str> = (0..24i8).map(get_key_name).collect();
    assert_eq!(
        names,
        vec![
            "C", "G", "D", "A", "E", "B", "F#", "C#", "F", "Bb", "Eb", "Ab", "A", "E", "B", "F#",
            "C#", "G#", "D", "G", "C", "F", "Bb", "Eb"
        ]
    );
}

#[test]
fn some_scales_of_the_table() {
    assert_eq!(get_key(7).note_names, ["C#", "D#", "E#", "F#", "G#", "A#", "B#"]);
    assert_eq!(get_key(17).note_names, ["G#", "A#", "B", "C#", "D#", "E", "F#"]);
    assert_eq!(get_key(23).note_names, ["Eb", "F", "Gb", "Ab", "Bb", "Cb", "Db"]);
    let (scale, name) = key_entry(9);
    assert_eq!(scale.note_names, ["Bb", "C", "D", "Eb", "F", "G", "A"]);
    assert_eq!(name, "Bb");
}

#[test]
fn every_key_name_is_its_tonic() {
    for key in 0..24i8 {
        assert_eq!(get_note_name(1, get_key(key)), get_key_name(key));
    }
}

#[test]
fn key_index_keeps_valid_keys() {
    for key in 0..24i8 {
        assert_eq!(key_index(key), key as usize);
    }
    assert_eq!(NUM_KEYS, 24);
}

#[test]
fn frequency_positions_on_the_reference_rows() {
    assert_eq!(frequency_table_position(0, 1, true), Some((0, 14)));
    assert_eq!(frequency_table_position(0, 1, false), Some((0, 28)));
    assert_eq!(frequency_table_position(5, 7, false), Some((5, 34)));
    assert_eq!(frequency_table_position(23, 0, true), Some((23, 13)));
    assert_eq!(frequency_table_position(24, 1, true), None);
    assert_eq!(frequency_table_position(-1, 3, false), None);
    assert_eq!(frequency_table_position(-128, 120, false), None);
}
