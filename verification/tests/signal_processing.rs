use synthphone_e_vocal_dsp::dsp::signal_processing::{select_pitch_target, smoothing_window, PitchTarget};

#[test]
fn smoothing_window_is_clipped_at_both_ends() {
    assert_eq!(smoothing_window(0, 256), (0, 9));
    assert_eq!(smoothing_window(5, 256), (0, 14));
    assert_eq!(smoothing_window(100, 256), (92, 109));
    assert_eq!(smoothing_window(250, 256), (242, 256));
    assert_eq!(smoothing_window(255, 256), (247, 256));
}

#[test]
fn smoothing_window_of_short_spectrum() {
    assert_eq!(smoothing_window(2, 4), (0, 4));
}

#[test]
fn pitch_target_sources() {
    assert_eq!(select_pitch_target(0, true), PitchTarget::NearestInKey);
    assert_eq!(select_pitch_target(0, false), PitchTarget::NearestInKey);
    assert_eq!(select_pitch_target(3, true), PitchTarget::Midi);
    assert_eq!(select_pitch_target(3, false), PitchTarget::ScaleDegree);
    assert_eq!(select_pitch_target(-2, false), PitchTarget::ScaleDegree);
}
