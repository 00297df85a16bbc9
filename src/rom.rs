use vstd::prelude::*;

use crate::frame_rate::FrameRate;
use crate::resolution::Resolution;

verus! {

/// File extension of a packed ROM container.
pub const ROM_FILE_EXTENSION: &'static str = "nzrom";

/// A loaded program: its bytecode and the two settings it was bundled with.
#[derive(Debug)]
pub struct Rom {
    pub code: Vec<u8>,
    pub resolution: Resolution,
    pub frame_rate: FrameRate,
}

impl Rom {
    /// A ROM holding `code` with the default resolution and frame rate.
    pub fn from_code(code: &[u8]) -> (r: Self)
        ensures
            r.code@ == code@,
            r.resolution == Resolution::High,
            r.frame_rate == FrameRate::Fast,
    {
        Rom {
            code: vstd::slice::slice_to_vec(code),
            resolution: Resolution::default(),
            frame_rate: FrameRate::default(),
        }
    }
}

} // verus!
