//! Core logic of a three-channel RGB indicator driven by one analog knob and
//! two buttons.
//!
//! The crate holds the verified parts of the system: quantizing a raw analog
//! sample to a discrete brightness level, deriving per-level tick durations
//! from a target frame rate, the shared store that one task writes and the
//! other reads, the modulator that turns levels into timed on/off pulses, and
//! the input controller that decides when a sampled value must be written.
//! Driving the pins, sampling the hardware and scheduling the two tasks stay
//! outside; they hand this crate plain values and carry out the pulse plans
//! and reports it returns.

use vstd::prelude::*;

pub mod decimal;
pub mod frame_rate;
pub mod quantizer;
pub mod rgb;
pub mod shared;
pub mod ui;

verus! {

/// Number of discrete brightness levels; a level is always in `[0, LEVELS)`.
pub const LEVELS: u32 = 16;

/// Time units per second: tick durations are measured in microseconds.
pub const MICROS_PER_SECOND: u64 = 1_000_000;

} // verus!
