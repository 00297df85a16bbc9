use vstd::prelude::*;

use crate::frame_rate::FrameRate;
use crate::resolution::Resolution;
use crate::rom::Rom;

verus! {

/// Settings a bundler reads to pack a ROM; absent settings take their defaults.
#[derive(Debug)]
pub struct Config {
    pub resolution: Option<Resolution>,
    pub frame_rate: Option<FrameRate>,
    pub wasm_path: String,
    pub output_file: Option<String>,
}

impl Config {
    /// The ROM of `code` with this configuration's settings.
    pub fn to_rom(&self, code: Vec<u8>) -> (r: Rom)
        ensures
            r.code@ == code@,
            r.resolution == match self.resolution {
                Some(res) => res,
                None => Resolution::High,
            },
            r.frame_rate == match self.frame_rate {
                Some(f) => f,
                None => FrameRate::Fast,
            },
    {
        let resolution = match self.resolution {
            Some(res) => res,
            None => Resolution::default(),
        };
        let frame_rate = match self.frame_rate {
            Some(f) => f,
            None => FrameRate::default(),
        };
        Rom { code, resolution, frame_rate }
    }
}

/// How a rollback session for a program is set up.
#[derive(Debug, Clone, Copy, PartialEq, Eq, Structural)]
pub struct SessionSettings {
    pub num_players: usize,
    pub fps: usize,
    pub input_delay: usize,
}

/// The session settings for `rom` with `num_players` players: its tick rate, and the
/// input delay its frame rate asks for.
pub fn session_settings(rom: &Rom, num_players: usize) -> (r: SessionSettings)
    ensures
        r.num_players == num_players,
        r.fps == rom.frame_rate.fps_spec(),
        r.input_delay == rom.frame_rate.input_delay_spec(),
{
    SessionSettings {
        num_players,
        fps: rom.frame_rate.frames_per_second(),
        input_delay: rom.frame_rate.default_input_delay(),
    }
}

/// What the fixed-timestep loop does next.
#[derive(Debug, Clone, Copy, PartialEq, Eq, Structural)]
pub enum TickAction {
    /// Less than one tick of time is banked: wait for the next host frame.
    Wait,
    /// A tick's time passed while peers are still synchronising: it is dropped, and
    /// gameplay does not advance.
    Skip,
    /// Run one tick: add local input, advance the session, render.
    Advance,
}

/// The accumulator of a fixed-timestep loop, in nanoseconds.
#[derive(Debug, Clone, Copy, PartialEq, Eq, Structural)]
pub struct FrameClock {
    pub accumulator: u64,
    pub frame_nanos: u64,
}

impl FrameClock {
    pub fn new(frame_rate: FrameRate) -> (r: FrameClock)
        ensures
            r.accumulator == 0,
            r.frame_nanos == 1_000_000_000u64 / (frame_rate.fps_spec() as u64),
            r.frame_nanos > 0,
    {
        FrameClock { accumulator: 0, frame_nanos: frame_rate.frame_nanos() }
    }

    /// Banks `nanos` of elapsed host time, saturating.
    pub fn add_elapsed(&mut self, nanos: u64)
        ensures
            final(self).frame_nanos == old(self).frame_nanos,
            final(self).accumulator == if old(self).accumulator + nanos > u64::MAX {
                u64::MAX
            } else {
                (old(self).accumulator + nanos) as u64
            },
    {
        self.accumulator = self.accumulator.saturating_add(nanos);
    }

    /// Takes one tick's time from the bank when there is enough; while `synchronizing`
    /// that tick is skipped instead of run.
    pub fn next_tick(&mut self, synchronizing: bool) -> (r: TickAction)
        ensures
            final(self).frame_nanos == old(self).frame_nanos,
            old(self).accumulator < old(self).frame_nanos ==> r == TickAction::Wait
                && final(self).accumulator == old(self).accumulator,
            old(self).accumulator >= old(self).frame_nanos ==> final(self).accumulator
                == old(self).accumulator - old(self).frame_nanos && r == if synchronizing {
                TickAction::Skip
            } else {
                TickAction::Advance
            },
    {
        if self.accumulator < self.frame_nanos {
            return TickAction::Wait;
        }
        self.accumulator = self.accumulator - self.frame_nanos;
        if synchronizing {
            TickAction::Skip
        } else {
            TickAction::Advance
        }
    }
}

} // verus!
