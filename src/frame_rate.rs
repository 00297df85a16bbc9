use vstd::prelude::*;

verus! {

/// Simulation tick rate of a program.
#[derive(Debug, Clone, Copy, PartialEq, Eq, Structural)]
pub enum FrameRate {
    UltraFast,
    Fast,
    Retro,
    Cinematic,
}

impl FrameRate {
    pub open spec fn fps_spec(self) -> usize {
        match self {
            FrameRate::UltraFast => 120,
            FrameRate::Fast => 60,
            FrameRate::Retro => 30,
            FrameRate::Cinematic => 24,
        }
    }

    pub open spec fn input_delay_spec(self) -> usize {
        match self {
            FrameRate::UltraFast => 3,
            FrameRate::Fast => 2,
            FrameRate::Retro => 1,
            FrameRate::Cinematic => 0,
        }
    }

    pub open spec fn label_spec(self) -> Seq<char> {
        match self {
            FrameRate::UltraFast => "Ultra Fast"@,
            FrameRate::Fast => "Fast"@,
            FrameRate::Retro => "Retro"@,
            FrameRate::Cinematic => "Cinematic"@,
        }
    }

    /// Human readable name of the frame rate.
    pub fn as_str(&self) -> (r: &'static str)
        ensures
            r@ == self.label_spec(),
    {
        match self {
            FrameRate::UltraFast => "Ultra Fast",
            FrameRate::Fast => "Fast",
            FrameRate::Retro => "Retro",
            FrameRate::Cinematic => "Cinematic",
        }
    }

    /// Simulation ticks per second.
    pub fn frames_per_second(self) -> (r: usize)
        ensures
            r == self.fps_spec(),
            r > 0,
    {
        match self {
            FrameRate::UltraFast => 120,
            FrameRate::Fast => 60,
            FrameRate::Retro => 30,
            FrameRate::Cinematic => 24,
        }
    }

    /// Frames of input delay a rollback session uses by default at this rate.
    pub fn default_input_delay(self) -> (r: usize)
        ensures
            r == self.input_delay_spec(),
    {
        match self {
            FrameRate::UltraFast => 3,
            FrameRate::Fast => 2,
            FrameRate::Retro => 1,
            FrameRate::Cinematic => 0,
        }
    }

    /// Length of one tick in nanoseconds, rounded down.
    pub fn frame_nanos(self) -> (r: u64)
        ensures
            r == 1_000_000_000u64 / (self.fps_spec() as u64),
            r > 0,
    {
        match self {
            FrameRate::UltraFast => 1_000_000_000u64 / 120,
            FrameRate::Fast => 1_000_000_000u64 / 60,
            FrameRate::Retro => 1_000_000_000u64 / 30,
            FrameRate::Cinematic => 1_000_000_000u64 / 24,
        }
    }
}

impl Default for FrameRate {
    fn default() -> (r: Self)
        ensures
            r == FrameRate::Fast,
    {
        FrameRate::Fast
    }
}

} // verus!
