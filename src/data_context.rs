use vstd::prelude::*;

use crate::frame_rate::FrameRate;
use crate::resolution::Resolution;
use crate::rom::Rom;

verus! {

/// The read-only environment facts a guest can query.
#[derive(Debug, Clone, Copy, PartialEq, Eq, Structural)]
pub struct DataContext {
    pub resolution: Resolution,
    pub frame_rate: FrameRate,
}

impl DataContext {
    pub fn new(rom: &Rom) -> (r: DataContext)
        ensures
            r.resolution == rom.resolution,
            r.frame_rate == rom.frame_rate,
    {
        DataContext { resolution: rom.resolution, frame_rate: rom.frame_rate }
    }

    pub fn width(&self) -> (r: i32)
        ensures
            r == self.resolution.dimensions_spec().0 as i32,
    {
        self.resolution.dimensions().0 as i32
    }

    pub fn height(&self) -> (r: i32)
        ensures
            r == self.resolution.dimensions_spec().1 as i32,
    {
        self.resolution.dimensions().1 as i32
    }

    pub fn fps(&self) -> (r: i32)
        ensures
            r == self.frame_rate.fps_spec() as i32,
    {
        self.frame_rate.frames_per_second() as i32
    }
}

} // verus!
