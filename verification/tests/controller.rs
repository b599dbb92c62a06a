use rgbcal::shared::SharedState;
use rgbcal::ui::select_target;
use rgbcal::ui::Target;
use rgbcal::ui::Ui;
use rgbcal::ui::UiState;

#[test]
fn store_starts_at_defaults() {
    let shared = SharedState::new();
    assert_eq!(shared.read_levels(), [15, 15, 15]);
    assert_eq!(shared.read_frequency(), 100);
}

#[test]
fn store_reads_back_whole_writes() {
    let mut shared = SharedState::new();
    shared.modify_levels(|_current: [u32; 3]| [1, 2, 3]);
    assert_eq!(shared.read_levels(), [1, 2, 3]);
    assert_eq!(shared.read_frequency(), 100);
    shared.modify_frequency(|_current: u64| 40);
    assert_eq!(shared.read_frequency(), 40);
    assert_eq!(shared.read_levels(), [1, 2, 3]);
}

#[test]
fn modify_sees_the_current_value() {
    let mut shared = SharedState::new();
    shared.modify_frequency(|current: u64| current + 10);
    assert_eq!(shared.read_frequency(), 110);
}

#[test]
fn button_decode_table() {
    assert!(matches!(select_target(true, true), Target::Led(0)));
    assert!(matches!(select_target(true, false), Target::Led(2)));
    assert!(matches!(select_target(false, true), Target::Led(1)));
    assert!(matches!(select_target(false, false), Target::FrameRate));
}

#[test]
fn default_report_lines() {
    let state = UiState::default();
    let lines = state.show();
    assert_eq!(lines.len(), 4);
    assert_eq!(lines[0].as_str(), "red: 15");
    assert_eq!(lines[1].as_str(), "green: 15");
    assert_eq!(lines[2].as_str(), "blue: 15");
    assert_eq!(lines[3].as_str(), "frame rate: 100");
}

#[test]
fn unchanged_level_is_suppressed() {
    // The cache starts with every channel at 15; sampling 15 again for any
    // channel neither reports nor writes.
    let mut shared = SharedState::new();
    let mut ui = Ui::new();
    let report = ui.update_level(&mut shared, 0, 15);
    assert!(report.is_none());
    assert_eq!(shared.read_levels(), [15, 15, 15]);
}

#[test]
fn changed_level_reports_and_writes() {
    let mut shared = SharedState::new();
    let mut ui = Ui::new();
    let report = ui.update_level(&mut shared, 1, 3).expect("a change must report");
    assert_eq!(report[1].as_str(), "green: 3");
    assert_eq!(shared.read_levels(), [15, 3, 15]);
    // Writing the very same level again is a no-op.
    assert!(ui.update_level(&mut shared, 1, 3).is_none());
}

#[test]
fn unchanged_frame_rate_is_suppressed() {
    // Knob level 9 converts to 100, the cached default.
    let mut shared = SharedState::new();
    let mut ui = Ui::new();
    assert!(ui.update_fps(&mut shared, 9).is_none());
    assert_eq!(shared.read_frequency(), 100);
}

#[test]
fn changed_frame_rate_reports_and_writes() {
    let mut shared = SharedState::new();
    let mut ui = Ui::new();
    let report = ui.update_fps(&mut shared, 15).expect("a change must report");
    assert_eq!(report[3].as_str(), "frame rate: 160");
    assert_eq!(shared.read_frequency(), 160);
    assert!(ui.update_fps(&mut shared, 15).is_none());
}

#[test]
fn seeding_quantizes_and_writes_once() {
    let mut shared = SharedState::new();
    let mut ui = Ui::new();
    ui.seed_levels(&mut shared, [0, 1667, 10_000]);
    assert_eq!(shared.read_levels(), [0, 1, 15]);
    assert_eq!(shared.read_frequency(), 100);
}

#[test]
fn poll_routes_by_buttons() {
    let mut shared = SharedState::new();
    let mut ui = Ui::new();
    // Both pressed: channel 0 takes the quantized sample.
    assert!(ui.poll_step(&mut shared, true, true, 0).is_some());
    assert_eq!(shared.read_levels(), [0, 15, 15]);
    // First alone: channel 2.
    assert!(ui.poll_step(&mut shared, true, false, 1667).is_some());
    assert_eq!(shared.read_levels(), [0, 15, 1]);
    // Second alone: channel 1.
    assert!(ui.poll_step(&mut shared, false, true, 5000).is_some());
    assert_eq!(shared.read_levels(), [0, 7, 1]);
    // Neither: the frame rate.
    assert!(ui.poll_step(&mut shared, false, false, 0).is_some());
    assert_eq!(shared.read_frequency(), 10);
    // The same poll again changes nothing and reports nothing.
    assert!(ui.poll_step(&mut shared, false, false, 0).is_none());
    assert_eq!(shared.read_levels(), [0, 7, 1]);
}
