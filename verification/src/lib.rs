//! Integer core of a vocal-effects DSP library: key and scale tables,
//! bin and index arithmetic of the spectral pitch tools, and the decisions
//! that select a processing pipeline.

pub mod audio;
pub mod dsp;
pub mod state;
pub mod vocal_effects;
pub mod effects;
