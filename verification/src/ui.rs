//! The input controller: decode the buttons into a target, quantize the knob
//! sample, and write to the shared store only when the sampled value differs
//! from the cached one — emitting a diagnostic report exactly then.
//!
//! Reading the buttons and the sampler is the surrounding program's work; it
//! hands the pressed states and the raw sample to `poll_step` and prints the
//! report lines that come back.

use vstd::prelude::*;
use vstd::string::StringExecFns;
use crate::LEVELS;
use crate::decimal::spec_decimal;
use crate::decimal::u64_to_decimal;
use crate::frame_rate::convert_to_fps;
use crate::frame_rate::spec_convert_to_fps;
use crate::quantizer::quantize;
use crate::quantizer::spec_quantize;
use crate::shared::DEFAULT_FRAME_RATE;
use crate::shared::SharedState;

verus! {

/// The input controller's private cache of what it last stored: used to tell
/// whether a sampled value is a change at all.
#[derive(Clone, Copy, Debug)]
pub struct UiState {
    pub levels: [u32; 3],
    pub frame_rate: u64,
}

/// What the button pair selects: one channel's level, or the frame rate.
#[derive(Clone, Copy, PartialEq, Eq, Structural, Debug)]
pub enum Target {
    Led(usize),
    FrameRate,
}

/// One report line: a label, a separating `": "`, and the value in decimal.
pub open spec fn spec_line(name: Seq<char>, value: nat) -> Seq<char> {
    name + ": "@ + spec_decimal(value)
}

/// The diagnostic report for a cache state: one line per channel, then the
/// frame rate.
pub open spec fn is_report_of(lines: Seq<String>, s: UiState) -> bool {
    &&& lines.len() == 4
    &&& lines[0]@ == spec_line("red"@, s.levels[0] as nat)
    &&& lines[1]@ == spec_line("green"@, s.levels[1] as nat)
    &&& lines[2]@ == spec_line("blue"@, s.levels[2] as nat)
    &&& lines[3]@ == spec_line("frame rate"@, s.frame_rate as nat)
}

/// The exact button decode table: both pressed picks channel 0, the first
/// alone channel 2, the second alone channel 1, neither the frame rate.
pub open spec fn spec_select_target(a_pressed: bool, b_pressed: bool) -> Target {
    if a_pressed && b_pressed {
        Target::Led(0)
    } else if a_pressed {
        Target::Led(2)
    } else if b_pressed {
        Target::Led(1)
    } else {
        Target::FrameRate
    }
}

/// What one level poll does to the cache and the store: nothing at all when
/// the sampled level equals the cached one, else the one channel is replaced
/// in both, the store gets the whole new triple, and a report is owed.
pub open spec fn level_step(
    ui0: UiState,
    sh0: SharedState,
    led_index: int,
    level: u32,
    ui1: UiState,
    sh1: SharedState,
    reported: bool,
) -> bool {
    if level == ui0.levels[led_index] {
        &&& !reported
        &&& ui1 == ui0
        &&& sh1 == sh0
    } else {
        &&& reported
        &&& ui1.levels@ == ui0.levels@.update(led_index, level)
        &&& ui1.frame_rate == ui0.frame_rate
        &&& sh1.levels() == ui1.levels
        &&& sh1.frequency() == sh0.frequency()
    }
}

/// What one frame-rate poll does: the knob level becomes a frame rate; when
/// it equals the cached one nothing happens, else cache and store take it and
/// a report is owed.
pub open spec fn frequency_step(
    ui0: UiState,
    sh0: SharedState,
    knob_level: u32,
    ui1: UiState,
    sh1: SharedState,
    reported: bool,
) -> bool {
    let fps = spec_convert_to_fps(knob_level);
    if fps == ui0.frame_rate {
        &&& !reported
        &&& ui1 == ui0
        &&& sh1 == sh0
    } else {
        &&& reported
        &&& ui1.frame_rate == fps
        &&& ui1.levels == ui0.levels
        &&& sh1.frequency() == fps
        &&& sh1.levels() == sh0.levels()
    }
}

/// One report line, e.g. `"red: 12"`.
fn label_line(name: &str, value: u64) -> (line: String)
    ensures
        line@ == spec_line(name@, value as nat),
{
    let mut line: String = name.to_owned();
    line.append(": ");
    let digits = u64_to_decimal(value);
    line.append(digits.as_str());
    line
}

impl UiState {
    /// Render the report for this cache state.
    pub fn show(&self) -> (lines: Vec<String>)
        ensures
            is_report_of(lines@, *self),
    {
        let mut lines: Vec<String> = Vec::new();
        lines.push(label_line("red", self.levels[0] as u64));
        lines.push(label_line("green", self.levels[1] as u64));
        lines.push(label_line("blue", self.levels[2] as u64));
        lines.push(label_line("frame rate", self.frame_rate));
        lines
    }
}

impl Default for UiState {
    /// Start as the shared store starts: every channel at the top level, the
    /// frame rate at the default.
    fn default() -> (s: UiState)
        ensures
            s.levels@ =~= seq![(LEVELS - 1) as u32, (LEVELS - 1) as u32, (LEVELS - 1) as u32],
            s.frame_rate == DEFAULT_FRAME_RATE,
    {
        UiState { levels: [LEVELS - 1, LEVELS - 1, LEVELS - 1], frame_rate: DEFAULT_FRAME_RATE }
    }
}

/// Decode the two buttons. Also promises that a selected channel index is in
/// range.
pub fn select_target(a_pressed: bool, b_pressed: bool) -> (target: Target)
    ensures
        target == spec_select_target(a_pressed, b_pressed),
        target matches Target::Led(i) ==> i < 3,
{
    if a_pressed && b_pressed {
        Target::Led(0)
    } else if a_pressed {
        Target::Led(2)
    } else if b_pressed {
        Target::Led(1)
    } else {
        Target::FrameRate
    }
}

/// The input controller's state: just the cache of what it last stored.
pub struct Ui {
    state: UiState,
}

impl Ui {
    /// The cached copy of levels and frame rate.
    pub closed spec fn state(&self) -> UiState {
        self.state
    }

    /// Create the controller with the cache at the store's defaults.
    pub fn new() -> (ui: Ui)
        ensures
            ui.state().levels@ =~= seq![(LEVELS - 1) as u32, (LEVELS - 1) as u32, (LEVELS - 1) as u32],
            ui.state().frame_rate == DEFAULT_FRAME_RATE,
    {
        Ui { state: UiState::default() }
    }

    /// One-time start-up: quantize one raw sample per channel, seed the cache
    /// with the three levels, and write them to the store as a single batch.
    pub fn seed_levels(&mut self, shared: &mut SharedState, samples: [u16; 3])
        ensures
            forall|i: int| 0 <= i < 3 ==> final(self).state().levels[i] == spec_quantize(
                samples[i],
            ),
            final(self).state().frame_rate == old(self).state().frame_rate,
            final(shared).levels() == final(self).state().levels,
            final(shared).frequency() == old(shared).frequency(),
    {
        self.state.levels[0] = quantize(samples[0]);
        self.state.levels[1] = quantize(samples[1]);
        self.state.levels[2] = quantize(samples[2]);
        let new_levels: [u32; 3] = self.state.levels;
        shared.modify_levels(|current: [u32; 3]| -> (r: [u32; 3]) ensures r == new_levels { new_levels });
    }

    /// A freshly sampled level for one channel: write it through to the store
    /// and report, unless it is what the cache already holds.
    pub fn update_level(&mut self, shared: &mut SharedState, led_index: usize, level: u32) -> (report:
        Option<Vec<String>>)
        requires
            led_index < 3,
            level < LEVELS,
        ensures
            level_step(
                old(self).state(),
                *old(shared),
                led_index as int,
                level,
                final(self).state(),
                *final(shared),
                report is Some,
            ),
            report matches Some(lines) ==> is_report_of(lines@, final(self).state()),
    {
        if level != self.state.levels[led_index] {
            self.state.levels[led_index] = level;
            let lines = self.state.show();
            let new_levels: [u32; 3] = self.state.levels;
            shared.modify_levels(|current: [u32; 3]| -> (r: [u32; 3]) ensures r == new_levels { new_levels });
            Some(lines)
        } else {
            None
        }
    }

    /// A freshly sampled knob level for the frame rate: convert it, write it
    /// through and report, unless the cache already holds that frame rate.
    pub fn update_fps(&mut self, shared: &mut SharedState, knob_level: u32) -> (report: Option<
        Vec<String>,
    >)
        ensures
            frequency_step(
                old(self).state(),
                *old(shared),
                knob_level,
                final(self).state(),
                *final(shared),
                report is Some,
            ),
            report matches Some(lines) ==> is_report_of(lines@, final(self).state()),
    {
        let fps: u64 = convert_to_fps(knob_level);
        if fps != self.state.frame_rate {
            self.state.frame_rate = fps;
            let lines = self.state.show();
            let new_fps: u64 = self.state.frame_rate;
            shared.modify_frequency(|current: u64| -> (r: u64) ensures r == new_fps { new_fps });
            Some(lines)
        } else {
            None
        }
    }

    /// One pass of the polling loop: decode the buttons, quantize the raw
    /// sample, and route the level to the selected channel or to the frame
    /// rate.
    pub fn poll_step(
        &mut self,
        shared: &mut SharedState,
        a_pressed: bool,
        b_pressed: bool,
        raw: u16,
    ) -> (report: Option<Vec<String>>)
        ensures
            ({
                let target = spec_select_target(a_pressed, b_pressed);
                let level = spec_quantize(raw);
                &&& (target matches Target::Led(i) ==> level_step(
                    old(self).state(),
                    *old(shared),
                    i as int,
                    level,
                    final(self).state(),
                    *final(shared),
                    report is Some,
                ))
                &&& (target is FrameRate ==> frequency_step(
                    old(self).state(),
                    *old(shared),
                    level,
                    final(self).state(),
                    *final(shared),
                    report is Some,
                ))
            }),
            report matches Some(lines) ==> is_report_of(lines@, final(self).state()),
    {
        let target = select_target(a_pressed, b_pressed);
        let level = quantize(raw);
        match target {
            Target::Led(led_index) => self.update_level(shared, led_index, level),
            Target::FrameRate => self.update_fps(shared, level),
        }
    }
}

} // verus!
