//! A pattern-based step sequencer and multi-track audio mixer core.
//!
//! The library decides, for every output audio frame, which sampled sounds
//! start or keep playing, sums the active voices into one output sample, and
//! advances a shared musical clock according to tempo.
//!
//! Audio amplitudes are fixed-point integers: `sample::SAMPLE_UNIT` units
//! stand for a full-scale sample of 1.0. Musical time is exact: positions on
//! the timeline are counted in ticks (`transport::TICKS_PER_BEAT` per beat),
//! and the playhead advances in sub-beats (`tempo_bpm` sub-beats per output
//! sample, `60 * sample_rate_hz` sub-beats per beat), so every scheduling
//! decision is integer arithmetic with no accumulated drift.

pub mod config;
pub mod engine;
pub mod pattern;
pub mod sample;
pub mod timeline;
pub mod transport;
pub mod utils;
