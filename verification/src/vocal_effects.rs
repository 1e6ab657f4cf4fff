use vstd::prelude::*;

use crate::state::ProcessingMode;

verus! {

/// The spectral processing routine that runs for one frame.
#[derive(Debug, Clone, Copy, PartialEq, Eq, Structural)]
pub enum Pipeline {
    /// Pitch correction towards the key, scale degree or MIDI target.
    PitchCorrection,
    /// Vocoder: the voice's spectral envelope imposed on the carrier.
    Vocode,
    /// Pitch shift by the octave setting with formant handling, no correction.
    Dry,
    /// Harmony voices added to the unshifted voice.
    Harmony,
    /// Harmony voices coloured by a formant envelope cached across hops.
    HarmonyWithFormant,
}

/// The frame sizes for which a processing entry point exists.
pub open spec fn supported_fft_size(fft_size: int) -> bool {
    fft_size == 512 || fft_size == 1024 || fft_size == 2048 || fft_size == 4096
}

/// The routine that a frame of `fft_size` samples in `mode` runs: the one named by
/// the mode, except that Harmony at 1024 points runs with the cached formant envelope.
pub open spec fn spec_pipeline(mode: ProcessingMode, fft_size: int) -> Pipeline {
    match mode {
        ProcessingMode::PitchControl => Pipeline::PitchCorrection,
        ProcessingMode::Vocode => Pipeline::Vocode,
        ProcessingMode::Dry => Pipeline::Dry,
        ProcessingMode::Harmony => if fft_size == 1024 {
            Pipeline::HarmonyWithFormant
        } else {
            Pipeline::Harmony
        },
    }
}

/// Selects the processing routine for a frame of `fft_size` samples in `mode`.
/// Vocode needs a carrier signal; it is not selected without one.
pub fn select_pipeline(mode: ProcessingMode, fft_size: usize, has_carrier: bool) -> (pipeline: Pipeline)
    requires
        supported_fft_size(fft_size as int),
        mode == ProcessingMode::Vocode ==> has_carrier,
    ensures
        pipeline == spec_pipeline(mode, fft_size as int),
        mode == ProcessingMode::PitchControl ==> pipeline == Pipeline::PitchCorrection,
        mode == ProcessingMode::Vocode ==> pipeline == Pipeline::Vocode,
        mode == ProcessingMode::Dry ==> pipeline == Pipeline::Dry,
        mode == ProcessingMode::Harmony && fft_size == 1024 ==> pipeline == Pipeline::HarmonyWithFormant,
        mode == ProcessingMode::Harmony && fft_size != 1024 ==> pipeline == Pipeline::Harmony,
{
    if fft_size == 1024 && mode == ProcessingMode::Harmony {
        Pipeline::HarmonyWithFormant
    } else {
        match mode {
            ProcessingMode::PitchControl => Pipeline::PitchCorrection,
            ProcessingMode::Vocode => Pipeline::Vocode,
            ProcessingMode::Dry => Pipeline::Dry,
            ProcessingMode::Harmony => Pipeline::Harmony,
        }
    }
}

} // verus!
