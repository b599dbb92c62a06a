//! Frame timing: from a target frame rate to the tick duration that one unit
//! of level holds a channel on or off, and from a knob level to a frame rate.

use vstd::prelude::*;
use crate::LEVELS;
use crate::MICROS_PER_SECOND;

verus! {

/// Lowest frame rate a knob level can select.
pub const MIN_FRAME_RATE: u64 = 10;

/// Highest frame rate a knob level can select.
pub const MAX_FRAME_RATE: u64 = 160;

/// One frame services all three channels, and each channel is held for
/// `LEVELS` ticks in all, so a frame of `frame_rate` frames per second leaves
/// `MICROS_PER_SECOND / (3 * frame_rate * LEVELS)` microseconds per tick,
/// rounded down.
pub open spec fn spec_frame_tick_time(frame_rate: u64) -> u64
    recommends
        1 <= frame_rate,
{
    ((MICROS_PER_SECOND as int) / (3 * (frame_rate as int) * (LEVELS as int))) as u64
}

/// A knob level selects `10 * level + 10` frames per second, clamped into
/// `[MIN_FRAME_RATE, MAX_FRAME_RATE]`.
pub open spec fn spec_convert_to_fps(knob_level: u32) -> u64 {
    let fps = 10 * (knob_level as int) + 10;
    if fps < MIN_FRAME_RATE as int {
        MIN_FRAME_RATE
    } else if fps > MAX_FRAME_RATE as int {
        MAX_FRAME_RATE
    } else {
        fps as u64
    }
}

/// Return the number of microseconds per tick for the given frame rate.
pub fn frame_tick_time(frame_rate: u64) -> (tick: u64)
    requires
        1 <= frame_rate,
    ensures
        tick == spec_frame_tick_time(frame_rate),
        tick <= MICROS_PER_SECOND as int / (3 * LEVELS as int),
{
    let denom: u128 = 48 * (frame_rate as u128);
    proof {
        assert(denom == 3 * (frame_rate as int) * (LEVELS as int)) by (nonlinear_arith)
            requires
                denom == 48 * (frame_rate as int),
        ;
        vstd::arithmetic::div_mod::lemma_div_is_ordered_by_denominator(
            MICROS_PER_SECOND as int,
            (3 * LEVELS) as int,
            denom as int,
        );
    }
    ((MICROS_PER_SECOND as u128) / denom) as u64
}

/// Take a knob level from `0..LEVELS` and convert it to a frame rate in
/// `MIN_FRAME_RATE..=MAX_FRAME_RATE`, one step of 10 per level.
pub fn convert_to_fps(knob_level: u32) -> (fps: u64)
    ensures
        fps == spec_convert_to_fps(knob_level),
        MIN_FRAME_RATE <= fps <= MAX_FRAME_RATE,
{
    let fps: u64 = knob_level as u64 * 10 + 10;
    if fps > MAX_FRAME_RATE {
        MAX_FRAME_RATE
    } else {
        fps
    }
}

/// Law: the tick duration is the exact truncating quotient — `LEVELS` ticks
/// for each of the 3 channels fit within one nominal frame period, and one
/// tick more per unit would overrun it.
pub proof fn lemma_frame_tick_time_exact(frame_rate: u64)
    requires
        1 <= frame_rate,
    ensures
        spec_frame_tick_time(frame_rate) * (3 * frame_rate * LEVELS) <= MICROS_PER_SECOND,
        MICROS_PER_SECOND < (spec_frame_tick_time(frame_rate) + 1) * (3 * frame_rate * LEVELS),
{
    let d = 3 * (frame_rate as int) * (LEVELS as int);
    let q = (MICROS_PER_SECOND as int) / d;
    vstd::arithmetic::div_mod::lemma_fundamental_div_mod(MICROS_PER_SECOND as int, d);
    vstd::arithmetic::div_mod::lemma_mod_bound(MICROS_PER_SECOND as int, d);
    assert((q + 1) * d == q * d + d) by (nonlinear_arith);
    assert(d * q == q * d) by (nonlinear_arith);
}

} // verus!
