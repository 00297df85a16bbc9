use vstd::prelude::*;

use crate::audio_context::{AudioContext, PushedAudio};
use crate::data_context::DataContext;
use crate::draw_context::{Draw3dContext, DrawContextState};
use crate::input::Buttons;
use crate::input_context::{InputContext, PlayerInputEntry};
use crate::mouse::MouseState;
use crate::network::{NetworkInputState, WasmConsoleState, WIRE_INPUT_LEN};
use crate::random_context::RandomContext;
use crate::rom::Rom;
use crate::text_context::TextContext;

verus! {

/// Why restoring a snapshot failed. Any of these means the save/load contract is broken,
/// and the session that asked for the load must stop.
#[derive(Debug, Clone, Copy, PartialEq, Eq, Structural)]
pub enum RollbackError {
    /// The snapshot holds a different number of players than the program.
    PlayerCountMismatch,
    /// The snapshot's memory is not the size of the guest's memory.
    MemorySizeMismatch,
    /// A saved mouse record is not one this library produces.
    MalformedSnapshot,
}

/// What a snapshot holds, as plain values: previous buttons and mouse of each player, the
/// generator's state, and guest memory.
pub type SnapshotView = (Seq<Buttons>, Seq<MouseState>, u64, Seq<u8>);

impl WasmConsoleState {
    pub open spec fn view(self) -> SnapshotView {
        (self.previous_buttons@, self.previous_mouse@, self.rng_state, self.memory@)
    }
}

/// Every host-API context of one loaded program.
#[derive(Debug)]
pub struct WasmContexts {
    pub data: DataContext,
    pub draw_3d: Draw3dContext,
    pub input: InputContext,
    pub audio: AudioContext,
    pub random: RandomContext,
    pub text: TextContext,
}

/// The snapshot of `c` with guest memory `mem`.
pub open spec fn snapshot_spec(c: WasmContexts, mem: Seq<u8>) -> SnapshotView {
    (
        Seq::new(c.input.input_entries@.len(), |i: int| c.input.input_entries@[i].previous),
        Seq::new(c.input.input_entries@.len(), |i: int| c.input.input_entries@[i].previous_mouse),
        c.random.state,
        mem,
    )
}

/// Whether snapshot `s` can be restored into `c` with guest memory `mem`.
pub open spec fn snapshot_fits(c: WasmContexts, mem: Seq<u8>, s: SnapshotView) -> bool {
    &&& s.0.len() == c.input.input_entries@.len()
    &&& s.1.len() == c.input.input_entries@.len()
    &&& s.3.len() == mem.len()
    &&& forall|i: int| 0 <= i < s.1.len() ==> (#[trigger] s.1[i]).wf()
}

/// `after` and `mem_after` are `before` and `mem_before` with snapshot `s` restored: each
/// player's previous buttons and mouse, the generator and guest memory come from `s`;
/// everything else is kept.
pub open spec fn restored(
    after: WasmContexts,
    mem_after: Seq<u8>,
    before: WasmContexts,
    s: SnapshotView,
) -> bool {
    &&& mem_after == s.3
    &&& after.random.state == s.2
    &&& after.input.input_entries@.len() == before.input.input_entries@.len()
    &&& forall|i: int|
        0 <= i < after.input.input_entries@.len() ==> (#[trigger] after.input.input_entries@[i])
            == (PlayerInputEntry {
            previous: s.0[i],
            previous_mouse: s.1[i],
            ..before.input.input_entries@[i]
        })
    &&& after.input.mouse_locked == before.input.mouse_locked
    &&& after.data == before.data
    &&& after.draw_3d == before.draw_3d
    &&& after.audio == before.audio
}

/// Decoding each player's wire input for this tick.
pub open spec fn decoded_inputs(inputs: Seq<[u8; 16]>) -> Seq<NetworkInputState> {
    Seq::new(inputs.len(), |i: int| NetworkInputState::from_wire_spec(inputs[i]@))
}

impl WasmContexts {
    pub open spec fn wf(self) -> bool {
        self.draw_3d.wf() && self.input.wf()
    }

    /// The contexts of a freshly loaded `rom` with `num_players` player slots.
    pub fn new(rom: &Rom, num_players: usize, random_seed: u64) -> (r: WasmContexts)
        ensures
            r.wf(),
            r.data.resolution == rom.resolution,
            r.data.frame_rate == rom.frame_rate,
            r.draw_3d.state == DrawContextState::Invalid,
            r.input.input_entries@.len() == num_players,
            r.audio.pushed_audio@.len() == 0,
            r.random.state == random_seed,
    {
        WasmContexts {
            data: DataContext::new(rom),
            draw_3d: Draw3dContext::new(),
            input: InputContext::new(num_players),
            audio: AudioContext::new(),
            random: RandomContext::new(random_seed),
            text: TextContext,
        }
    }

    /// Captures what a rollback needs to resume from this point.
    pub fn generate_save_state(&self, memory: &[u8]) -> (r: WasmConsoleState)
        requires
            self.wf(),
        ensures
            r.view() == snapshot_spec(*self, memory@),
            snapshot_fits(*self, memory@, r.view()),
    {
        let n = self.input.input_entries.len();
        let mut previous_buttons: Vec<Buttons> = Vec::new();
        let mut previous_mouse: Vec<MouseState> = Vec::new();
        let mut i: usize = 0;
        while i < n
            invariant
                n == self.input.input_entries@.len(),
                self.wf(),
                i <= n,
                previous_buttons@ =~= Seq::new(i as nat, |j: int| self.input.input_entries@[j].previous),
                previous_mouse@ =~= Seq::new(i as nat, |j: int| self.input.input_entries@[j].previous_mouse),
            decreases n - i,
        {
            previous_buttons.push(self.input.input_entries[i].previous);
            previous_mouse.push(self.input.input_entries[i].previous_mouse);
            i = i + 1;
        }
        let r = WasmConsoleState {
            previous_buttons,
            previous_mouse,
            rng_state: self.random.state,
            memory: vstd::slice::slice_to_vec(memory),
        };
        proof {
            assert forall|j: int| 0 <= j < r.previous_mouse@.len() implies (#[trigger] r.previous_mouse@[j]).wf() by {
                assert(self.input.input_entries@[j].wf());
            }
        }
        r
    }

    /// Restores `state` into these contexts and guest `memory`. Fails, changing nothing,
    /// exactly when the snapshot does not fit them.
    pub fn load_save_state(&mut self, state: &WasmConsoleState, memory: &mut [u8]) -> (r: Result<
        (),
        RollbackError,
    >)
        requires
            old(self).wf(),
        ensures
            final(self).wf(),
            r is Ok <==> snapshot_fits(*old(self), old(memory)@, state.view()),
            r is Ok ==> restored(*final(self), final(memory)@, *old(self), state.view()),
            r is Err ==> *final(self) == *old(self) && final(memory)@ == old(memory)@,
    {
        let n = self.input.input_entries.len();
        if state.previous_buttons.len() != n || state.previous_mouse.len() != n {
            return Err(RollbackError::PlayerCountMismatch);
        }
        if state.memory.len() != memory.len() {
            return Err(RollbackError::MemorySizeMismatch);
        }
        let mut k: usize = 0;
        while k < n
            invariant
                n == state.previous_mouse@.len(),
                n == state.previous_buttons@.len(),
                n == self.input.input_entries@.len(),
                state.memory@.len() == memory@.len(),
                *self == *old(self),
                self.wf(),
                memory@ == old(memory)@,
                k <= n,
                forall|j: int| 0 <= j < k ==> (#[trigger] state.previous_mouse@[j]).wf(),
            decreases n - k,
        {
            let m = state.previous_mouse[k];
            if m.x_pos > crate::mouse::POS_ABSENT_RAW || m.y_pos > crate::mouse::POS_ABSENT_RAW {
                return Err(RollbackError::MalformedSnapshot);
            }
            k = k + 1;
        }
        let mut i: usize = 0;
        while i < n
            invariant
                n == old(self).input.input_entries@.len(),
                n == self.input.input_entries@.len(),
                n == state.previous_buttons@.len(),
                n == state.previous_mouse@.len(),
                i <= n,
                forall|j: int| 0 <= j < n ==> (#[trigger] state.previous_mouse@[j]).wf(),
                forall|j: int| 0 <= j < n ==> (#[trigger] old(self).input.input_entries@[j]).wf(),
                forall|j: int|
                    0 <= j < i ==> (#[trigger] self.input.input_entries@[j]) == (PlayerInputEntry {
                        previous: state.previous_buttons@[j],
                        previous_mouse: state.previous_mouse@[j],
                        ..old(self).input.input_entries@[j]
                    }),
                forall|j: int|
                    i <= j < n ==> (#[trigger] self.input.input_entries@[j]) == old(self).input.input_entries@[j],
                self.input.mouse_locked == old(self).input.mouse_locked,
                self.data == old(self).data,
                self.draw_3d == old(self).draw_3d,
                self.audio == old(self).audio,
                self.random == old(self).random,
                self.text == old(self).text,
                memory@ == old(memory)@,
            decreases n - i,
        {
            let mut e = self.input.input_entries[i];
            e.previous = state.previous_buttons[i];
            e.previous_mouse = state.previous_mouse[i];
            self.input.input_entries.set(i, e);
            i = i + 1;
        }
        let mut b: usize = 0;
        let len = memory.len();
        while b < len
            invariant
                len == memory@.len(),
                len == state.memory@.len(),
                b <= len,
                forall|j: int| 0 <= j < b ==> memory@[j] == state.memory@[j],
            decreases len - b,
        {
            memory[b] = state.memory[b];
            b = b + 1;
        }
        self.random.state = state.rng_state;
        proof {
            assert(memory@ =~= state.memory@);
            assert forall|j: int| 0 <= j < n implies (#[trigger] self.input.input_entries@[j]).wf() by {
                assert(old(self).input.input_entries@[j].wf());
                assert(state.previous_mouse@[j].wf());
            }
        }
        Ok(())
    }

    /// Opens a tick: each player slot takes its decoded input from `inputs` as `current`.
    /// Slots past the end of `inputs`, and inputs past the last slot, are left alone.
    pub fn begin_frame(&mut self, inputs: &Vec<[u8; 16]>)
        requires
            old(self).wf(),
        ensures
            final(self).wf(),
            final(self).input.input_entries@.len() == old(self).input.input_entries@.len(),
            forall|i: int|
                0 <= i < old(self).input.input_entries@.len() ==> (#[trigger] final(self).input.input_entries@[i])
                    == if i < inputs@.len() {
                    PlayerInputEntry {
                        current: decoded_inputs(inputs@)[i].input_state,
                        current_mouse: decoded_inputs(inputs@)[i].mouse_state,
                        ..old(self).input.input_entries@[i]
                    }
                } else {
                    old(self).input.input_entries@[i]
                },
            final(self).input.mouse_locked == old(self).input.mouse_locked,
            final(self).random == old(self).random,
            final(self).draw_3d == old(self).draw_3d,
            final(self).audio == old(self).audio,
            final(self).data == old(self).data,
    {
        let n = self.input.input_entries.len();
        let mut i: usize = 0;
        while i < n
            invariant
                n == old(self).input.input_entries@.len(),
                n == self.input.input_entries@.len(),
                i <= n,
                forall|j: int| 0 <= j < n ==> (#[trigger] old(self).input.input_entries@[j]).wf(),
                forall|j: int|
                    0 <= j < i ==> (#[trigger] self.input.input_entries@[j]) == if j < inputs@.len() {
                        PlayerInputEntry {
                            current: decoded_inputs(inputs@)[j].input_state,
                            current_mouse: decoded_inputs(inputs@)[j].mouse_state,
                            ..old(self).input.input_entries@[j]
                        }
                    } else {
                        old(self).input.input_entries@[j]
                    },
                forall|j: int|
                    0 <= j < i ==> (#[trigger] self.input.input_entries@[j]).wf(),
                forall|j: int|
                    i <= j < n ==> (#[trigger] self.input.input_entries@[j]) == old(self).input.input_entries@[j],
                self.input.mouse_locked == old(self).input.mouse_locked,
                self.data == old(self).data,
                self.draw_3d == old(self).draw_3d,
                self.audio == old(self).audio,
                self.random == old(self).random,
                self.text == old(self).text,
            decreases n - i,
        {
            if i < inputs.len() {
                let decoded = NetworkInputState::from_bytes(&inputs[i]);
                let mut e = self.input.input_entries[i];
                e.current = decoded.input_state;
                e.current_mouse = decoded.mouse_state;
                self.input.input_entries.set(i, e);
            }
            i = i + 1;
        }
    }

    /// Closes a tick after the guest's `update`: hands out the audio it pushed and makes
    /// this tick's buttons and mouse the previous ones of the next tick.
    pub fn end_frame(&mut self) -> (r: Vec<PushedAudio>)
        requires
            old(self).wf(),
        ensures
            final(self).wf(),
            r@ == old(self).audio.pushed_audio@,
            final(self).audio.pushed_audio@.len() == 0,
            final(self).input.input_entries@.len() == old(self).input.input_entries@.len(),
            forall|i: int|
                0 <= i < old(self).input.input_entries@.len() ==> (#[trigger] final(self).input.input_entries@[i])
                    == (PlayerInputEntry {
                    previous: old(self).input.input_entries@[i].current.buttons,
                    previous_mouse: old(self).input.input_entries@[i].current_mouse,
                    ..old(self).input.input_entries@[i]
                }),
            final(self).input.mouse_locked == old(self).input.mouse_locked,
            final(self).random == old(self).random,
            final(self).draw_3d == old(self).draw_3d,
            final(self).data == old(self).data,
    {
        let audio = self.audio.drain();
        let n = self.input.input_entries.len();
        let mut i: usize = 0;
        while i < n
            invariant
                n == old(self).input.input_entries@.len(),
                n == self.input.input_entries@.len(),
                i <= n,
                forall|j: int| 0 <= j < n ==> (#[trigger] old(self).input.input_entries@[j]).wf(),
                forall|j: int|
                    0 <= j < i ==> (#[trigger] self.input.input_entries@[j]) == (PlayerInputEntry {
                        previous: old(self).input.input_entries@[j].current.buttons,
                        previous_mouse: old(self).input.input_entries@[j].current_mouse,
                        ..old(self).input.input_entries@[j]
                    }),
                forall|j: int|
                    i <= j < n ==> (#[trigger] self.input.input_entries@[j]) == old(self).input.input_entries@[j],
                self.input.mouse_locked == old(self).input.mouse_locked,
                self.data == old(self).data,
                self.draw_3d == old(self).draw_3d,
                self.audio.pushed_audio@.len() == 0,
                self.random == old(self).random,
                self.text == old(self).text,
            decreases n - i,
        {
            let mut e = self.input.input_entries[i];
            e.previous = e.current.buttons;
            e.previous_mouse = e.current_mouse;
            self.input.input_entries.set(i, e);
            i = i + 1;
        }
        proof {
            assert forall|j: int| 0 <= j < n implies (#[trigger] self.input.input_entries@[j]).wf() by {
                assert(old(self).input.input_entries@[j].wf());
            }
        }
        audio
    }
}

/// Saving, then changing anything, then loading the save, gives back exactly the saved
/// guest memory, previous buttons, previous mouse records and generator state.
pub proof fn lemma_save_load_round_trip(
    saved: WasmContexts,
    mem: Seq<u8>,
    changed: WasmContexts,
    changed_mem: Seq<u8>,
    after: WasmContexts,
    after_mem: Seq<u8>,
)
    requires
        saved.wf(),
        changed.wf(),
        changed.input.input_entries@.len() == saved.input.input_entries@.len(),
        changed_mem.len() == mem.len(),
        restored(after, after_mem, changed, snapshot_spec(saved, mem)),
    ensures
        snapshot_fits(changed, changed_mem, snapshot_spec(saved, mem)),
        after_mem == mem,
        after.random.state == saved.random.state,
        after.input.input_entries@.len() == saved.input.input_entries@.len(),
        forall|i: int|
            0 <= i < saved.input.input_entries@.len() ==> (#[trigger] after.input.input_entries@[i]).previous
                == saved.input.input_entries@[i].previous
                && after.input.input_entries@[i].previous_mouse
                == saved.input.input_entries@[i].previous_mouse,
{
    let s = snapshot_spec(saved, mem);
    assert forall|i: int| 0 <= i < s.1.len() implies (#[trigger] s.1[i]).wf() by {
        assert(saved.input.input_entries@[i].wf());
    }
    assert forall|i: int| 0 <= i < saved.input.input_entries@.len() implies (#[trigger] after.input.input_entries@[i]).previous
        == saved.input.input_entries@[i].previous
        && after.input.input_entries@[i].previous_mouse
        == saved.input.input_entries@[i].previous_mouse by {
        assert(after.input.input_entries@[i] == (PlayerInputEntry {
            previous: s.0[i],
            previous_mouse: s.1[i],
            ..changed.input.input_entries@[i]
        }));
    }
}

} // verus!
