use vstd::prelude::*;

use crate::bytes::{
    from_le_spec, le_bytes_spec, lemma_le_round_trip, u64_from_le_bytes, u64_to_le_bytes,
};
use crate::input::{lemma_input_bytes_round_trip, Buttons, InputState};
use crate::mouse::MouseState;

verus! {

/// Bytes of one player's input for one tick on the wire.
pub const WIRE_INPUT_LEN: usize = 16;

/// One player's input for one tick: the value a rollback session exchanges between peers.
#[derive(Debug, Clone, Copy, PartialEq, Eq, Structural, Hash, Default)]
pub struct NetworkInputState {
    pub input_state: InputState,
    pub mouse_state: MouseState,
}

impl NetworkInputState {
    pub open spec fn wf(self) -> bool {
        self.mouse_state.wf()
    }

    /// The wire layout: the eight bytes of the input state, then the mouse record in
    /// little-endian order.
    pub open spec fn wire_spec(self) -> Seq<u8> {
        self.input_state.bytes_spec() + le_bytes_spec(self.mouse_state.bits_spec())
    }

    pub open spec fn from_wire_spec(b: Seq<u8>) -> NetworkInputState
        recommends
            b.len() == WIRE_INPUT_LEN,
    {
        NetworkInputState {
            input_state: InputState::from_bytes_spec(b.subrange(0, 8)),
            mouse_state: MouseState::from_bits_spec(from_le_spec(b.subrange(8, 16))),
        }
    }

    pub fn to_bytes(&self) -> (r: [u8; 16])
        requires
            self.wf(),
        ensures
            r@ == self.wire_spec(),
    {
        let a = self.input_state.to_bytes();
        let m = u64_to_le_bytes(self.mouse_state.to_bits());
        let r = [a[0], a[1], a[2], a[3], a[4], a[5], a[6], a[7], m[0], m[1], m[2], m[3], m[4], m[5], m[6], m[7]];
        assert(r@ =~= self.wire_spec());
        r
    }

    /// Decodes any sixteen bytes; the result is always well formed.
    pub fn from_bytes(b: &[u8; 16]) -> (r: NetworkInputState)
        ensures
            r == Self::from_wire_spec(b@),
            r.wf(),
    {
        let a = [b[0], b[1], b[2], b[3], b[4], b[5], b[6], b[7]];
        let m = [b[8], b[9], b[10], b[11], b[12], b[13], b[14], b[15]];
        assert(a@ =~= b@.subrange(0, 8));
        assert(m@ =~= b@.subrange(8, 16));
        NetworkInputState {
            input_state: InputState::from_bytes(&a),
            mouse_state: MouseState::from_bits(u64_from_le_bytes(&m)),
        }
    }
}

/// Every well-formed input decodes from its own wire bytes, so every peer reads back
/// exactly the value that was sent.
pub proof fn lemma_wire_round_trip(s: NetworkInputState)
    requires
        s.wf(),
    ensures
        s.wire_spec().len() == WIRE_INPUT_LEN,
        NetworkInputState::from_wire_spec(s.wire_spec()) == s,
{
    let w = s.wire_spec();
    assert(w.subrange(0, 8) =~= s.input_state.bytes_spec());
    assert(w.subrange(8, 16) =~= le_bytes_spec(s.mouse_state.bits_spec()));
    lemma_input_bytes_round_trip(s.input_state);
    lemma_le_round_trip(s.mouse_state.bits_spec());
    s.mouse_state.lemma_bits_round_trip();
}

/// Everything a rollback needs to resume a program exactly: each player's previous
/// buttons and mouse record, the random generator's state and the guest's whole memory.
#[derive(Debug)]
pub struct WasmConsoleState {
    pub previous_buttons: Vec<Buttons>,
    pub previous_mouse: Vec<MouseState>,
    pub rng_state: u64,
    pub memory: Vec<u8>,
}

} // verus!
