pub mod frequency_analysis;
pub mod signal_processing;
