use rgbcal::frame_rate::convert_to_fps;
use rgbcal::frame_rate::frame_tick_time;
use rgbcal::LEVELS;
use rgbcal::MICROS_PER_SECOND;

#[test]
fn tick_time_at_default_frame_rate() {
    // 1_000_000 / (3 * 100 * 16) = 208, truncating.
    assert_eq!(frame_tick_time(100), 208);
}

#[test]
fn tick_time_at_range_ends() {
    assert_eq!(frame_tick_time(10), 2083);
    assert_eq!(frame_tick_time(160), 130);
}

#[test]
fn tick_time_truncates_exactly() {
    // The truncating-division relationship, numerically, over the whole
    // valid frame-rate range: the quotient fits under the period, one more
    // per tick would not.
    for frame_rate in 10u64..=160 {
        let tick = frame_tick_time(frame_rate);
        let denom = 3 * frame_rate * LEVELS as u64;
        assert!(tick * denom <= MICROS_PER_SECOND);
        assert!(MICROS_PER_SECOND < (tick + 1) * denom);
    }
}

#[test]
fn knob_level_ends_map_to_frame_rate_ends() {
    // Level 0 selects the floor, level 15 the ceiling.
    assert_eq!(convert_to_fps(0), 10);
    assert_eq!(convert_to_fps(15), 160);
}

#[test]
fn out_of_range_knob_level_still_clamps() {
    // 20 is outside the normal level range; its 210 clamps to 160.
    assert_eq!(convert_to_fps(20), 160);
}

#[test]
fn frame_rate_steps_by_ten() {
    for level in 0u32..LEVELS {
        let fps = convert_to_fps(level);
        assert_eq!(fps, (10 * level + 10) as u64);
        assert!((10..=160).contains(&fps));
    }
}
