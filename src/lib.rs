//! Synthesis of a small drum kit and sequencing of its voices into a loop.
//!
//! Sample values are a type parameter throughout: the library decides how
//! many samples each piece has, where every sample goes and which ones are
//! silenced, while the arithmetic on sample values is handed in by the caller.
pub mod timing;
pub mod config;
pub mod generators;
pub mod sequencer;
pub mod envelope;
pub mod voices;
pub mod filter;
