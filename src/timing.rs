//! Conversion between host frames and processor clock cycles.
use vstd::prelude::*;

verus! {

/// Standard Z80 clock frequency in Hz.
pub const Z80_CLOCK_FREQUENCY: u32 = 4_000_000;

/// Host frame rate in frames per second.
pub const RETROARCH_FPS: u32 = 60;

/// Tracks how far the clock has run into the current host frame.
pub struct TimingConverter {
    clock_frequency: u32,
    t_states_per_frame: u32,
    current_frame_t_states: u32,
}

impl TimingConverter {
    /// Clock frequency in Hz.
    pub closed spec fn frequency(&self) -> u32 {
        self.clock_frequency
    }

    /// Cycles in one frame: the frequency divided by the frame rate, rounded down.
    pub closed spec fn per_frame(&self) -> u32 {
        self.t_states_per_frame
    }

    /// Cycles already run in the current frame.
    pub closed spec fn in_frame(&self) -> u32 {
        self.current_frame_t_states
    }

    /// A converter for `clock_frequency` Hz at the start of a frame.
    pub fn new(clock_frequency: u32) -> (t: TimingConverter)
        ensures
            t.frequency() == clock_frequency,
            t.per_frame() == clock_frequency / RETROARCH_FPS,
            t.in_frame() == 0,
    {
        TimingConverter {
            clock_frequency,
            t_states_per_frame: clock_frequency / RETROARCH_FPS,
            current_frame_t_states: 0,
        }
    }

    /// Cycles in one frame.
    pub fn t_states_per_frame(&self) -> (r: u32)
        ensures
            r == self.per_frame(),
    {
        self.t_states_per_frame
    }

    /// Cycles already run in the current frame.
    pub fn current_frame_t_states(&self) -> (r: u32)
        ensures
            r == self.in_frame(),
    {
        self.current_frame_t_states
    }

    /// Counts `t_states` more cycles; reports whether a frame boundary was
    /// reached, in which case one frame's worth is taken off the count.
    pub fn update_frame_t_states(&mut self, t_states: u32) -> (boundary: bool)
        requires
            old(self).in_frame() + t_states <= u32::MAX,
        ensures
            boundary == (old(self).in_frame() + t_states >= old(self).per_frame()),
            final(self).in_frame() == old(self).in_frame() + t_states - (if boundary {
                old(self).per_frame() as int
            } else {
                0
            }),
            final(self).per_frame() == old(self).per_frame(),
            final(self).frequency() == old(self).frequency(),
    {
        self.current_frame_t_states = self.current_frame_t_states + t_states;
        if self.current_frame_t_states >= self.t_states_per_frame {
            self.current_frame_t_states = self.current_frame_t_states - self.t_states_per_frame;
            true
        } else {
            false
        }
    }

    /// Cycles in `frames` whole frames.
    pub fn frames_to_t_states(&self, frames: u32) -> (r: u32)
        requires
            frames * self.per_frame() <= u32::MAX,
        ensures
            r == frames * self.per_frame(),
    {
        frames * self.t_states_per_frame
    }

    /// Whole frames in `t_states` cycles, rounded down; zero when a frame is
    /// shorter than one cycle.
    pub fn t_states_to_frames(&self, t_states: u32) -> (r: u32)
        ensures
            self.per_frame() > 0 ==> r == t_states / self.per_frame(),
            self.per_frame() == 0 ==> r == 0,
    {
        if self.t_states_per_frame == 0 {
            0
        } else {
            t_states / self.t_states_per_frame
        }
    }

    /// Cycles left until the end of the current frame (zero once past it).
    pub fn remaining_t_states(&self) -> (r: u32)
        ensures
            r == if self.in_frame() <= self.per_frame() {
                self.per_frame() - self.in_frame()
            } else {
                0
            },
    {
        if self.current_frame_t_states <= self.t_states_per_frame {
            self.t_states_per_frame - self.current_frame_t_states
        } else {
            0
        }
    }

    /// Switches to a new clock frequency and restarts the frame.
    pub fn set_clock_frequency(&mut self, frequency: u32)
        ensures
            final(self).frequency() == frequency,
            final(self).per_frame() == frequency / RETROARCH_FPS,
            final(self).in_frame() == 0,
    {
        self.clock_frequency = frequency;
        self.t_states_per_frame = frequency / RETROARCH_FPS;
        self.current_frame_t_states = 0;
    }
}

impl Default for TimingConverter {
    fn default() -> (t: TimingConverter)
        ensures
            t.frequency() == Z80_CLOCK_FREQUENCY,
            t.per_frame() == Z80_CLOCK_FREQUENCY / RETROARCH_FPS,
            t.in_frame() == 0,
    {
        TimingConverter::new(Z80_CLOCK_FREQUENCY)
    }
}

} // verus!
