# synthphone_e_vocal_dsp

Integer core of a vocal-effects DSP library, verified with Verus.

- `src/audio/keys.rs` — the table of 24 keys (note names, key names, modes) and the
  lookups on it, with the fallback to C major for keys out of range.
- `src/audio/frequencies.rs` — the chromatic note table C0..B8 in hundredths of a hertz
  and the nearest-note search used for pitch correction.
- `src/dsp/frequency_analysis.rs` — harmonic bins, the peak and sub-octave choices of the
  fundamental detector, the harmonic downsample range, the YIN lag window, the
  sample-and-hold reducer and bitcrusher levels.
- `src/dsp/signal_processing.rs` — the envelope smoothing window and the choice of
  pitch-correction target.
- `src/effects.rs` — formant-warp selection and dry mode's pass-through decision.
- `src/state.rs`, `src/vocal_effects.rs` — processing modes and pipeline selection.

`app/` holds the floating-point signal path (FFT analysis and synthesis, pitch
detection, effect routines), which calls the verified functions for its integer
decisions. `tests/` exercises the verified crate.
