use synthphone_e_vocal_dsp::state::ProcessingMode;
use synthphone_e_vocal_dsp::vocal_effects::{select_pipeline, Pipeline};

#[test]
fn pipelines_follow_the_mode() {
    for size in [512usize, 1024, 2048, 4096] {
        assert_eq!(select_pipeline(ProcessingMode::PitchControl, size, false), Pipeline::PitchCorrection);
        assert_eq!(select_pipeline(ProcessingMode::Vocode, size, true), Pipeline::Vocode);
        assert_eq!(select_pipeline(ProcessingMode::Dry, size, false), Pipeline::Dry);
    }
}

#[test]
fn harmony_at_1024_points_uses_cached_formants() {
    assert_eq!(select_pipeline(ProcessingMode::Harmony, 1024, false), Pipeline::HarmonyWithFormant);
    assert_eq!(select_pipeline(ProcessingMode::Harmony, 512, false), Pipeline::Harmony);
    assert_eq!(select_pipeline(ProcessingMode::Harmony, 2048, true), Pipeline::Harmony);
    assert_eq!(select_pipeline(ProcessingMode::Harmony, 4096, false), Pipeline::Harmony);
}

#[test]
fn processing_modes_compare_by_variant() {
    assert_eq!(ProcessingMode::Dry, ProcessingMode::Dry);
    assert_ne!(ProcessingMode::Dry, ProcessingMode::Harmony);
}
