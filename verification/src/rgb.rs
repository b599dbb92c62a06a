//! The modulation engine: a level and a tick duration become one timed on/off
//! pulse per channel, three channels in sequence per frame.
//!
//! The engine only plans: it says how long each line is to be held high and
//! low. The surrounding program drives the pins and waits out the durations,
//! one channel at a time — at most one channel is in its on phase at any
//! instant, and a frame lasts the sum of the three channels' holds.

use vstd::prelude::*;
use crate::LEVELS;
use crate::MICROS_PER_SECOND;
use crate::frame_rate::frame_tick_time;
use crate::frame_rate::spec_frame_tick_time;

verus! {

/// One channel's share of a frame: hold the line high for `on_micros`, then
/// low for `off_micros`.
#[derive(Clone, Copy, PartialEq, Eq, Structural, Debug)]
pub struct Pulse {
    pub on_micros: u64,
    pub off_micros: u64,
}

/// The modulation engine's own snapshot of the levels and the tick duration,
/// refreshed once per frame from the shared store.
pub struct Rgb {
    levels: [u32; 3],
    tick_time: u64,
}

/// The pulse for one level at one tick duration: `level` ticks on, the
/// remaining `LEVELS - level` ticks off.
pub open spec fn spec_pulse(level: u32, tick_time: u64) -> Pulse {
    Pulse {
        on_micros: (level * tick_time) as u64,
        off_micros: ((LEVELS - level) * tick_time) as u64,
    }
}

impl Rgb {
    /// The levels of the last snapshot.
    pub closed spec fn levels(&self) -> [u32; 3] {
        self.levels
    }

    /// The tick duration of the last snapshot.
    pub closed spec fn tick_time(&self) -> u64 {
        self.tick_time
    }

    /// The snapshot is one the engine could have taken: levels in range and a
    /// tick duration no longer than any frame rate yields.
    pub closed spec fn wf(&self) -> bool {
        &&& forall|i: int| 0 <= i < 3 ==> self.levels[i] < LEVELS
        &&& self.tick_time <= MICROS_PER_SECOND as int / (3 * LEVELS as int)
    }

    /// Create the engine: all channels dark, the tick duration taken from the
    /// starting frame rate.
    pub fn new(frame_rate: u64) -> (rgb: Rgb)
        requires
            1 <= frame_rate,
        ensures
            rgb.wf(),
            rgb.levels()@ =~= seq![0u32, 0u32, 0u32],
            rgb.tick_time() == spec_frame_tick_time(frame_rate),
    {
        let tick_time = frame_tick_time(frame_rate);
        Rgb { levels: [0, 0, 0], tick_time }
    }

    /// Plan one channel's share of the current frame. A dark channel gets no
    /// on phase; every channel's on and off phases together last exactly
    /// `LEVELS` ticks.
    pub fn step(&self, led: usize) -> (pulse: Pulse)
        requires
            self.wf(),
            led < 3,
        ensures
            pulse == spec_pulse(self.levels()[led as int], self.tick_time()),
            pulse.on_micros == self.levels()[led as int] * self.tick_time(),
            pulse.off_micros == (LEVELS - self.levels()[led as int]) * self.tick_time(),
            pulse.on_micros + pulse.off_micros == LEVELS * self.tick_time(),
    {
        let level: u32 = self.levels[led];
        proof {
            assert(level * self.tick_time + (LEVELS - level) * self.tick_time
                == LEVELS * self.tick_time) by (nonlinear_arith);
            assert(LEVELS * self.tick_time <= LEVELS * (MICROS_PER_SECOND as int / (3 * LEVELS as int)))
                by (nonlinear_arith)
                requires
                    self.tick_time <= MICROS_PER_SECOND as int / (3 * LEVELS as int),
            ;
        }
        let on_micros: u64 = level as u64 * self.tick_time;
        let off_micros: u64 = (LEVELS - level) as u64 * self.tick_time;
        Pulse { on_micros, off_micros }
    }

    /// Plan one whole frame: take the snapshot for this frame — the levels
    /// and the tick duration for the frame rate, shared by all three
    /// channels — and return the three pulses in channel order. The frame
    /// lasts `3 * LEVELS` ticks in all.
    pub fn frame(&mut self, levels: [u32; 3], frame_rate: u64) -> (pulses: Vec<Pulse>)
        requires
            forall|i: int| 0 <= i < 3 ==> levels[i] < LEVELS,
            1 <= frame_rate,
        ensures
            final(self).wf(),
            final(self).levels() == levels,
            final(self).tick_time() == spec_frame_tick_time(frame_rate),
            pulses@.len() == 3,
            forall|i: int| 0 <= i < 3 ==> pulses@[i] == spec_pulse(levels[i], final(self).tick_time()),
            pulses@[0].on_micros + pulses@[0].off_micros + pulses@[1].on_micros
                + pulses@[1].off_micros + pulses@[2].on_micros + pulses@[2].off_micros
                == 3 * LEVELS * final(self).tick_time(),
    {
        self.levels = levels;
        self.tick_time = frame_tick_time(frame_rate);
        let mut pulses: Vec<Pulse> = Vec::new();
        pulses.push(self.step(0));
        pulses.push(self.step(1));
        pulses.push(self.step(2));
        pulses
    }
}

} // verus!
