//! Quantizer: from a raw analog sample to a discrete level in `[0, LEVELS)`.

use vstd::prelude::*;
use crate::LEVELS;

verus! {

/// Largest raw sample the quantizer distinguishes; anything above is clamped
/// down to it before scaling, never rejected.
pub const RAW_CEILING: u16 = 0x7fff;

/// Fixed divisor that scales a clamped raw sample to a ratio of full scale.
pub const RAW_DIVISOR: u32 = 10_000;

/// A raw sample with the ceiling applied.
pub open spec fn spec_clamp_raw(raw: u16) -> u16 {
    if raw > RAW_CEILING {
        RAW_CEILING
    } else {
        raw
    }
}

/// The level for a raw sample: scale the clamped sample by `RAW_DIVISOR`,
/// stretch by `LEVELS + 2` and shift down by 2 — widening the input bands
/// mapped to the lowest and highest levels — then clamp into `[0, LEVELS)`.
pub open spec fn spec_quantize(raw: u16) -> u32 {
    let scaled = ((LEVELS + 2) * spec_clamp_raw(raw)) as int / RAW_DIVISOR as int;
    let level = scaled - 2;
    if level < 0 {
        0u32
    } else if level > (LEVELS - 1) as int {
        (LEVELS - 1) as u32
    } else {
        level as u32
    }
}

/// Convert a raw sample to a level. Deterministic, total: out-of-range
/// samples are clamped, never rejected.
pub fn quantize(raw: u16) -> (level: u32)
    ensures
        level == spec_quantize(raw),
        level < LEVELS,
{
    let clamped: u32 = if raw > RAW_CEILING {
        RAW_CEILING as u32
    } else {
        raw as u32
    };
    let scaled: u32 = (LEVELS + 2) * clamped / RAW_DIVISOR;
    if scaled < 2 {
        0
    } else if scaled - 2 > LEVELS - 1 {
        LEVELS - 1
    } else {
        scaled - 2
    }
}

/// Law: the quantizer is monotonic — a sample no smaller than another never
/// maps to a smaller level.
pub proof fn lemma_quantize_monotonic(r1: u16, r2: u16)
    requires
        r1 <= r2,
    ensures
        spec_quantize(r1) <= spec_quantize(r2),
{
    let c1 = spec_clamp_raw(r1) as int;
    let c2 = spec_clamp_raw(r2) as int;
    assert((LEVELS + 2) * c1 <= (LEVELS + 2) * c2) by (nonlinear_arith)
        requires
            0 <= c1 <= c2,
    ;
    vstd::arithmetic::div_mod::lemma_div_is_ordered(
        ((LEVELS + 2) * spec_clamp_raw(r1)) as int,
        ((LEVELS + 2) * spec_clamp_raw(r2)) as int,
        RAW_DIVISOR as int,
    );
}

} // verus!
