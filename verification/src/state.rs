use vstd::prelude::*;

verus! {

/// Processing modes for vocal effects
#[derive(Debug, Clone, Copy, PartialEq, Eq, Structural)]
pub enum ProcessingMode {
    /// Pitch correction/PitchControl mode
    PitchControl,
    /// Vocoder mode - applies vocal formants to carrier signal
    Vocode,
    /// Dry mode - pitch shifting with formant preservation but no correction
    Dry,
    /// Harmony mode - adding harmonies based on the played notes
    Harmony,
}

} // verus!
