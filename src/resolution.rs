use vstd::prelude::*;

verus! {

/// Output resolution of a program, fixed for the lifetime of a loaded ROM.
#[derive(Debug, Clone, Copy, PartialEq, Eq, Structural)]
pub enum Resolution {
    Full,
    High,
    Retro,
    Compact,
}

impl Resolution {
    /// Width and height in pixels.
    pub open spec fn dimensions_spec(self) -> (u32, u32) {
        match self {
            Resolution::Full => (1920, 1080),
            Resolution::High => (960, 540),
            Resolution::Retro => (640, 360),
            Resolution::Compact => (480, 270),
        }
    }

    /// Returns the width and height of the resolution.
    pub fn dimensions(&self) -> (r: (u32, u32))
        ensures
            r == self.dimensions_spec(),
    {
        match self {
            Resolution::Full => (1920, 1080),
            Resolution::High => (960, 540),
            Resolution::Retro => (640, 360),
            Resolution::Compact => (480, 270),
        }
    }
}

impl Default for Resolution {
    fn default() -> (r: Self)
        ensures
            r == Resolution::High,
    {
        Resolution::High
    }
}

} // verus!
