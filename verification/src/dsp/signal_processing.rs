use vstd::prelude::*;

verus! {

/// Half-width of the moving-average window of the simple spectral envelope, in bins.
pub const SMOOTH_BINS: usize = 8;

/// Bounds `(start, end)` of the moving-average window around bin `i` of a spectrum of
/// `len` bins: up to `SMOOTH_BINS` bins on each side, clipped to the spectrum.
pub open spec fn spec_smoothing_window(i: int, len: int) -> (int, int) {
    let start = if i >= SMOOTH_BINS { i - SMOOTH_BINS } else { 0 };
    let end = if i + SMOOTH_BINS + 1 <= len { i + SMOOTH_BINS + 1 } else { len };
    (start, end)
}

/// Returns the half-open range `start..end` of bins that the simple envelope averages
/// for bin `i`: `i - 8` (saturating at 0) up to `i + 9`, clipped to `len`.
pub fn smoothing_window(i: usize, len: usize) -> (window: (usize, usize))
    requires
        i + SMOOTH_BINS + 1 <= usize::MAX,
    ensures
        window.0 == spec_smoothing_window(i as int, len as int).0,
        window.1 == spec_smoothing_window(i as int, len as int).1,
        window.0 == (if i >= SMOOTH_BINS { i - SMOOTH_BINS } else { 0int }),
        window.1 == (if i + SMOOTH_BINS + 1 <= len { i + SMOOTH_BINS + 1 } else { len as int }),
        i < len ==> window.0 <= i < window.1 <= len,
        i < len ==> window.1 - window.0 <= 2 * SMOOTH_BINS + 1,
{
    let start = i.saturating_sub(SMOOTH_BINS);
    let end = if i + SMOOTH_BINS + 1 <= len { i + SMOOTH_BINS + 1 } else { len };
    (start, end)
}

/// Where the pitch-correction target frequency comes from.
#[derive(Debug, Clone, Copy, PartialEq, Eq, Structural)]
pub enum PitchTarget {
    /// The scale note of the current key nearest to the detected fundamental.
    NearestInKey,
    /// The first MIDI frequency supplied with the settings.
    Midi,
    /// The selected scale degree of the current key.
    ScaleDegree,
}

/// The target source for a `note` setting: automatic (note 0) snaps to the key;
/// otherwise a sounding MIDI note wins over the selected scale degree.
pub open spec fn spec_pitch_target(note: int, midi_active: bool) -> PitchTarget {
    if note == 0 {
        PitchTarget::NearestInKey
    } else if midi_active {
        PitchTarget::Midi
    } else {
        PitchTarget::ScaleDegree
    }
}

/// Chooses where the pitch correction takes its target frequency from. `note` is the
/// settings' note (0 = automatic); `midi_active` tells whether the first MIDI frequency
/// is above zero.
pub fn select_pitch_target(note: i8, midi_active: bool) -> (target: PitchTarget)
    ensures
        target == spec_pitch_target(note as int, midi_active),
        note == 0 ==> target == PitchTarget::NearestInKey,
        note != 0 && midi_active ==> target == PitchTarget::Midi,
        note != 0 && !midi_active ==> target == PitchTarget::ScaleDegree,
{
    if note == 0 {
        PitchTarget::NearestInKey
    } else if midi_active {
        PitchTarget::Midi
    } else {
        PitchTarget::ScaleDegree
    }
}

/// The target source depends on the note setting only through whether it is automatic
/// (0): any two non-zero notes choose the same source, a sounding MIDI note wins for every
/// non-zero note, and without one the scale degree is used.
pub proof fn lemma_pitch_target_ignores_degree(note1: int, note2: int, midi_active: bool)
    requires
        note1 != 0,
        note2 != 0,
    ensures
        spec_pitch_target(note1, midi_active) == spec_pitch_target(note2, midi_active),
        midi_active ==> spec_pitch_target(note1, midi_active) == PitchTarget::Midi,
        !midi_active ==> spec_pitch_target(note1, midi_active) == PitchTarget::ScaleDegree,
        spec_pitch_target(0, midi_active) == PitchTarget::NearestInKey,
{
}

} // verus!
