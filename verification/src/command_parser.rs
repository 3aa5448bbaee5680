//! The manual drive command, as handed to the core by the serial console.
//!
//! Decoding the console's text line (a frequency and an amplitude) involves
//! floating-point parsing and stays outside the core; what the core receives
//! is this plain decoded value.

use vstd::prelude::*;

verus! {

/// A decoded manual drive command: drive one string at the given period and
/// amplitude.
#[derive(Clone, Copy, Debug, PartialEq, Eq, Structural)]
pub struct Command {
    /// Drive period in nanoseconds.
    pub period: u32,
    /// Drive amplitude, full scale at 255.
    pub amplitude: u8,
}

} // verus!
