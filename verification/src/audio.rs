pub mod frequencies;
pub mod keys;
