use vstd::prelude::*;

use crate::guest_memory::{guest_addr, range_ok, read_bytes};

verus! {

/// One buffer of samples a guest pushed this tick.
#[derive(Debug)]
pub struct PushedAudio {
    /// 1 for mono, 2 for stereo.
    pub channels: u16,
    /// The samples as the guest wrote them: 32-bit floats, little-endian.
    pub data: Vec<u8>,
    pub sample_rate: u32,
}

/// Host-side audio of one program: what it pushed since the last drain.
#[derive(Debug)]
pub struct AudioContext {
    pub pushed_audio: Vec<PushedAudio>,
}

/// A channel count clamped to mono or stereo.
pub open spec fn clamp_channels(c: i32) -> u16 {
    if c <= 1 {
        1
    } else {
        2
    }
}

impl AudioContext {
    pub fn new() -> (r: AudioContext)
        ensures
            r.pushed_audio@.len() == 0,
    {
        AudioContext { pushed_audio: Vec::new() }
    }

    /// Queues `buffer_len` float samples at `buffer_ptr` for this tick's drain. Refused,
    /// with nothing queued, when the samples reach past guest memory.
    pub fn push_audio(
        &mut self,
        mem: &[u8],
        buffer_ptr: i32,
        buffer_len: i32,
        channel_count: i32,
        sample_rate: i32,
    ) -> (r: bool)
        ensures
            r == (buffer_len >= 0 && range_ok(mem@.len() as int, buffer_ptr, 4 * buffer_len)),
            !r ==> final(self).pushed_audio@ == old(self).pushed_audio@,
            r ==> final(self).pushed_audio@.len() == old(self).pushed_audio@.len() + 1
                && final(self).pushed_audio@.drop_last() == old(self).pushed_audio@ && ({
                let a = final(self).pushed_audio@.last();
                &&& a.channels == clamp_channels(channel_count)
                &&& a.sample_rate == sample_rate as u32
                &&& a.data@ == mem@.subrange(
                    guest_addr(buffer_ptr),
                    guest_addr(buffer_ptr) + 4 * buffer_len,
                )
            }),
    {
        let data = match read_bytes(mem, buffer_ptr, buffer_len, 4) {
            Some(d) => d,
            None => {
                return false;
            },
        };
        let channels: u16 = if channel_count <= 1 {
            1
        } else {
            2
        };
        self.pushed_audio.push(PushedAudio { channels, data, sample_rate: sample_rate as u32 });
        assert(self.pushed_audio@.drop_last() =~= old(self).pushed_audio@);
        true
    }

    /// Hands out everything pushed since the last drain and empties the queue.
    pub fn drain(&mut self) -> (r: Vec<PushedAudio>)
        ensures
            r@ == old(self).pushed_audio@,
            final(self).pushed_audio@.len() == 0,
    {
        let mut out: Vec<PushedAudio> = Vec::new();
        std::mem::swap(&mut out, &mut self.pushed_audio);
        out
    }
}

} // verus!
