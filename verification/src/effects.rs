use vstd::prelude::*;

verus! {

/// Which spectral-envelope warp a formant setting selects.
#[derive(Debug, Clone, Copy, PartialEq, Eq, Structural)]
pub enum FormantShift {
    /// No warp (ratio 1).
    Neutral,
    /// Formants shifted down (formant setting 1).
    Male,
    /// Formants shifted up (formant setting 2).
    Female,
}

/// The warp of a formant setting: 1 is male, 2 is female, every other value neutral.
pub open spec fn spec_formant_shift(formant: int) -> FormantShift {
    if formant == 1 {
        FormantShift::Male
    } else if formant == 2 {
        FormantShift::Female
    } else {
        FormantShift::Neutral
    }
}

/// Selects the spectral-envelope warp for the formant setting `formant`
/// (0 = none, 1 = male, 2 = female).
pub fn formant_shift(formant: i8) -> (shift: FormantShift)
    ensures
        shift == spec_formant_shift(formant as int),
        formant == 1 ==> shift == FormantShift::Male,
        formant == 2 ==> shift == FormantShift::Female,
        formant != 1 && formant != 2 ==> shift == FormantShift::Neutral,
{
    match formant {
        1 => FormantShift::Male,
        2 => FormantShift::Female,
        _ => FormantShift::Neutral,
    }
}

/// Whether dry mode passes the spectrum through untouched: no formant setting and a
/// pitch-shift ratio of one, which the octave setting (ratio `octave / 2`) gives only
/// for octave 2.
pub fn dry_passes_through(formant: i8, octave: i8) -> (pass_through: bool)
    ensures
        pass_through == (formant == 0 && octave == 2),
{
    formant == 0 && octave == 2
}

} // verus!
