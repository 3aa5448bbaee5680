//! Core of a driver for an array of electromagnetically-actuated resonant
//! strings: a double-buffered waveform pipeline with square-wave synthesis,
//! a per-string deadline-driven envelope state machine, and a noise-tolerant
//! frequency-calibration filter.
//!
//! Everything here is hardware-free: instants and durations are plain `u64`
//! tick counts, drive periods are `u32` nanosecond counts, and hardware
//! observations (transfer-completion flags, capture readings) are handed in
//! as arguments by the surrounding dispatcher.

pub mod ac;
pub mod command_parser;
pub mod string;
