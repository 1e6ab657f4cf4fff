use synthphone_e_vocal_dsp::effects::{dry_passes_through, formant_shift, FormantShift};

#[test]
fn formant_settings_select_warps() {
    assert_eq!(formant_shift(0), FormantShift::Neutral);
    assert_eq!(formant_shift(1), FormantShift::Male);
    assert_eq!(formant_shift(2), FormantShift::Female);
    assert_eq!(formant_shift(3), FormantShift::Neutral);
    assert_eq!(formant_shift(-1), FormantShift::Neutral);
}

#[test]
fn dry_pass_through_only_without_effects() {
    assert!(dry_passes_through(0, 2));
    assert!(!dry_passes_through(0, 1));
    assert!(!dry_passes_through(0, 4));
    assert!(!dry_passes_through(1, 2));
    assert!(!dry_passes_through(2, 2));
}

#[test]
fn dry_pass_through_matches_the_octave_ratio() {
    for octave in i8::MIN..=i8::MAX {
        let ratio = octave as f32 * 0.5;
        assert_eq!(dry_passes_through(0, octave), ratio > 0.99 && ratio < 1.01);
    }
}
