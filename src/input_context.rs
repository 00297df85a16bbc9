use vstd::prelude::*;

use crate::bytes::{from_le_spec, u64_from_le_bytes};
use crate::input::{lemma_zero_bits, Buttons, ButtonCode, InputState, StickAxes, TriggerSide, INVALID_RAW_INPUT};
use crate::mouse::{MouseState, INVALID_RAW_MOUSE};
use crate::network::NetworkInputState;

verus! {

/// One player slot: this tick's input and the buttons and mouse of the tick before.
#[derive(Debug, Clone, Copy, PartialEq, Eq, Structural)]
pub struct PlayerInputEntry {
    pub current: InputState,
    pub previous: Buttons,
    pub current_mouse: MouseState,
    pub previous_mouse: MouseState,
}

impl PlayerInputEntry {
    pub open spec fn wf(self) -> bool {
        self.current_mouse.wf() && self.previous_mouse.wf()
    }

    pub open spec fn idle() -> PlayerInputEntry {
        PlayerInputEntry {
            current: InputState::neutral(),
            previous: Buttons { bits: 0 },
            current_mouse: MouseState::from_bits_spec(0),
            previous_mouse: MouseState::from_bits_spec(0),
        }
    }

    /// Nothing held now or before, and a zeroed mouse record.
    pub fn new() -> (r: PlayerInputEntry)
        ensures
            r == Self::idle(),
            r.wf(),
            forall|c: ButtonCode| !(#[trigger] r.previous.held(c)) && !r.current.buttons.held(c),
    {
        proof {
            assert forall|c: ButtonCode| !(#[trigger] Buttons { bits: 0 }.held(c)) by {
                lemma_zero_bits(c.bit_spec());
            }
        }
        PlayerInputEntry {
            current: InputState::new(),
            previous: Buttons { bits: 0 },
            current_mouse: MouseState::from_bits(0),
            previous_mouse: MouseState::from_bits(0),
        }
    }
}

/// A button press edge: up last tick, down this tick.
pub open spec fn pressed_edge(previous: bool, current: bool) -> bool {
    !previous && current
}

/// A button release edge: down last tick, up this tick.
pub open spec fn released_edge(previous: bool, current: bool) -> bool {
    previous && !current
}

/// The guest's reading of a query on a player slot: `-1` for a slot that does not exist.
pub open spec fn flag_or_invalid(valid: bool, b: bool) -> i32 {
    if !valid {
        -1i32
    } else if b {
        1i32
    } else {
        0i32
    }
}

#[derive(Debug, Clone, Copy, PartialEq, Eq, Structural)]
pub enum MouseButton {
    Left,
    Right,
    Middle,
}

#[derive(Debug, Clone, Copy, PartialEq, Eq, Structural)]
pub enum MouseAxis {
    X,
    Y,
}

#[derive(Debug, Clone, Copy, PartialEq, Eq, Structural)]
pub enum WheelDirection {
    Up,
    Down,
    Left,
    Right,
}

#[derive(Debug, Clone, Copy, PartialEq, Eq, Structural)]
pub enum Stick {
    Left,
    Right,
}

pub open spec fn mouse_button_down(m: MouseState, b: MouseButton) -> bool {
    match b {
        MouseButton::Left => m.left_button,
        MouseButton::Right => m.right_button,
        MouseButton::Middle => m.middle_button,
    }
}

fn mouse_button_state(m: &MouseState, b: MouseButton) -> (r: bool)
    ensures
        r == mouse_button_down(*m, b),
{
    match b {
        MouseButton::Left => m.left_button,
        MouseButton::Right => m.right_button,
        MouseButton::Middle => m.middle_button,
    }
}

/// Host-side input of every player slot, read by the guest's input queries.
#[derive(Debug)]
pub struct InputContext {
    pub input_entries: Vec<PlayerInputEntry>,
    pub mouse_locked: bool,
}

impl InputContext {
    pub open spec fn wf(self) -> bool {
        forall|i: int| 0 <= i < self.input_entries@.len() ==> (#[trigger] self.input_entries@[i]).wf()
    }

    /// Whether `player_id` names an existing slot.
    pub open spec fn valid_player(self, player_id: i32) -> bool {
        0 <= player_id < self.input_entries@.len()
    }

    pub open spec fn entry(self, player_id: i32) -> PlayerInputEntry {
        self.input_entries@[player_id as int]
    }

    pub fn new(num_players: usize) -> (r: InputContext)
        ensures
            r.wf(),
            r.input_entries@.len() == num_players,
            forall|i: int| 0 <= i < num_players ==> #[trigger] r.input_entries@[i]
                == PlayerInputEntry::idle(),
            forall|i: int, c: ButtonCode|
                0 <= i < num_players ==> !(#[trigger] r.input_entries@[i].previous.held(c))
                    && !r.input_entries@[i].current.buttons.held(c),
            !r.mouse_locked,
    {
        let mut input_entries: Vec<PlayerInputEntry> = Vec::new();
        let mut i: usize = 0;
        while i < num_players
            invariant
                i <= num_players,
                input_entries@.len() == i,
                forall|j: int| 0 <= j < i ==> #[trigger] input_entries@[j] == PlayerInputEntry::idle(),
                forall|j: int| 0 <= j < i ==> (#[trigger] input_entries@[j]).wf(),
                forall|j: int, c: ButtonCode|
                    0 <= j < i ==> !(#[trigger] input_entries@[j].previous.held(c))
                        && !input_entries@[j].current.buttons.held(c),
            decreases num_players - i,
        {
            input_entries.push(PlayerInputEntry::new());
            i = i + 1;
        }
        InputContext { input_entries, mouse_locked: false }
    }

    fn slot(&self, player_id: i32) -> (r: Option<usize>)
        ensures
            r is Some <==> self.valid_player(player_id),
            r is Some ==> r->0 == player_id,
    {
        if player_id < 0 || player_id as usize >= self.input_entries.len() {
            None
        } else {
            Some(player_id as usize)
        }
    }

    /// `1` when `code` went down this tick, `0` otherwise, `-1` for an unknown player.
    pub fn button_pressed(&self, player_id: i32, code: ButtonCode) -> (r: i32)
        ensures
            r == flag_or_invalid(
                self.valid_player(player_id),
                self.valid_player(player_id) && pressed_edge(
                    self.entry(player_id).previous.held(code),
                    self.entry(player_id).current.buttons.held(code),
                ),
            ),
    {
        match self.slot(player_id) {
            Some(i) => {
                let prev = self.input_entries[i].previous.get_button_state(code);
                let curr = self.input_entries[i].current.buttons.get_button_state(code);
                if !prev && curr {
                    1
                } else {
                    0
                }
            },
            None => -1,
        }
    }

    /// `1` when `code` went up this tick, `0` otherwise, `-1` for an unknown player.
    pub fn button_released(&self, player_id: i32, code: ButtonCode) -> (r: i32)
        ensures
            r == flag_or_invalid(
                self.valid_player(player_id),
                self.valid_player(player_id) && released_edge(
                    self.entry(player_id).previous.held(code),
                    self.entry(player_id).current.buttons.held(code),
                ),
            ),
    {
        match self.slot(player_id) {
            Some(i) => {
                let prev = self.input_entries[i].previous.get_button_state(code);
                let curr = self.input_entries[i].current.buttons.get_button_state(code);
                if prev && !curr {
                    1
                } else {
                    0
                }
            },
            None => -1,
        }
    }

    /// `1` while `code` is down, `0` otherwise, `-1` for an unknown player.
    pub fn button_held(&self, player_id: i32, code: ButtonCode) -> (r: i32)
        ensures
            r == flag_or_invalid(
                self.valid_player(player_id),
                self.valid_player(player_id) && self.entry(player_id).current.buttons.held(code),
            ),
    {
        match self.slot(player_id) {
            Some(i) => {
                if self.input_entries[i].current.buttons.get_button_state(code) {
                    1
                } else {
                    0
                }
            },
            None => -1,
        }
    }

    pub fn mouse_button_pressed(&self, player_id: i32, button: MouseButton) -> (r: i32)
        ensures
            r == flag_or_invalid(
                self.valid_player(player_id),
                self.valid_player(player_id) && pressed_edge(
                    mouse_button_down(self.entry(player_id).previous_mouse, button),
                    mouse_button_down(self.entry(player_id).current_mouse, button),
                ),
            ),
    {
        match self.slot(player_id) {
            Some(i) => {
                let prev = mouse_button_state(&self.input_entries[i].previous_mouse, button);
                let curr = mouse_button_state(&self.input_entries[i].current_mouse, button);
                if !prev && curr {
                    1
                } else {
                    0
                }
            },
            None => -1,
        }
    }

    pub fn mouse_button_released(&self, player_id: i32, button: MouseButton) -> (r: i32)
        ensures
            r == flag_or_invalid(
                self.valid_player(player_id),
                self.valid_player(player_id) && released_edge(
                    mouse_button_down(self.entry(player_id).previous_mouse, button),
                    mouse_button_down(self.entry(player_id).current_mouse, button),
                ),
            ),
    {
        match self.slot(player_id) {
            Some(i) => {
                let prev = mouse_button_state(&self.input_entries[i].previous_mouse, button);
                let curr = mouse_button_state(&self.input_entries[i].current_mouse, button);
                if prev && !curr {
                    1
                } else {
                    0
                }
            },
            None => -1,
        }
    }

    pub fn mouse_button_held(&self, player_id: i32, button: MouseButton) -> (r: i32)
        ensures
            r == flag_or_invalid(
                self.valid_player(player_id),
                self.valid_player(player_id) && mouse_button_down(
                    self.entry(player_id).current_mouse,
                    button,
                ),
            ),
    {
        match self.slot(player_id) {
            Some(i) => {
                if mouse_button_state(&self.input_entries[i].current_mouse, button) {
                    1
                } else {
                    0
                }
            },
            None => -1,
        }
    }

    /// The pointer coordinate on `axis`; `-1` (`u32::MAX` reinterpreted) when there is no
    /// position or no such player.
    pub fn mouse_pos(&self, player_id: i32, axis: MouseAxis) -> (r: i32)
        ensures
            !self.valid_player(player_id) ==> r == -1,
            self.valid_player(player_id) ==> r == (match axis {
                MouseAxis::X => MouseState::pos_value(self.entry(player_id).current_mouse.x_pos),
                MouseAxis::Y => MouseState::pos_value(self.entry(player_id).current_mouse.y_pos),
            }) as i32,
    {
        match self.slot(player_id) {
            Some(i) => match axis {
                MouseAxis::X => self.input_entries[i].current_mouse.get_x_pos() as i32,
                MouseAxis::Y => self.input_entries[i].current_mouse.get_y_pos() as i32,
            },
            None => -1,
        }
    }

    /// The pointer motion on `axis` this tick; `i32::MIN` for an unknown player.
    pub fn mouse_delta(&self, player_id: i32, axis: MouseAxis) -> (r: i32)
        ensures
            !self.valid_player(player_id) ==> r == i32::MIN,
            self.valid_player(player_id) ==> r == (match axis {
                MouseAxis::X => self.entry(player_id).current_mouse.x_delta,
                MouseAxis::Y => self.entry(player_id).current_mouse.y_delta,
            }) as i32,
    {
        match self.slot(player_id) {
            Some(i) => match axis {
                MouseAxis::X => self.input_entries[i].current_mouse.x_delta as i32,
                MouseAxis::Y => self.input_entries[i].current_mouse.y_delta as i32,
            },
            None => i32::MIN,
        }
    }

    pub fn mouse_wheel(&self, player_id: i32, direction: WheelDirection) -> (r: i32)
        ensures
            r == flag_or_invalid(
                self.valid_player(player_id),
                self.valid_player(player_id) && match direction {
                    WheelDirection::Up => self.entry(player_id).current_mouse.wheel_up,
                    WheelDirection::Down => self.entry(player_id).current_mouse.wheel_down,
                    WheelDirection::Left => self.entry(player_id).current_mouse.wheel_left,
                    WheelDirection::Right => self.entry(player_id).current_mouse.wheel_right,
                },
            ),
    {
        match self.slot(player_id) {
            Some(i) => {
                let m = &self.input_entries[i].current_mouse;
                let b = match direction {
                    WheelDirection::Up => m.wheel_up,
                    WheelDirection::Down => m.wheel_down,
                    WheelDirection::Left => m.wheel_left,
                    WheelDirection::Right => m.wheel_right,
                };
                if b {
                    1
                } else {
                    0
                }
            },
            None => -1,
        }
    }

    /// The packed mouse record of this tick, or a value with only the invalid bit set.
    pub fn raw_mouse_state(&self, player_id: i32) -> (r: i64)
        requires
            self.wf(),
        ensures
            !self.valid_player(player_id) ==> r == INVALID_RAW_MOUSE,
            self.valid_player(player_id) ==> r == self.entry(player_id).current_mouse.bits_spec()
                as i64,
            self.valid_player(player_id) ==> r >= 0,
    {
        match self.slot(player_id) {
            Some(i) => {
                let bits = self.input_entries[i].current_mouse.to_bits();
                proof {
                    assert(bits >> 63u64 == 0 ==> bits <= 0x7FFF_FFFF_FFFF_FFFFu64) by (bit_vector);
                }
                bits as i64
            },
            None => INVALID_RAW_MOUSE,
        }
    }

    /// This tick's input state as its eight wire bytes read little-endian, or `-1`.
    pub fn raw_input_state(&self, player_id: i32) -> (r: i64)
        ensures
            !self.valid_player(player_id) ==> r == INVALID_RAW_INPUT,
            self.valid_player(player_id) ==> r == from_le_spec(
                self.entry(player_id).current.bytes_spec(),
            ) as i64,
    {
        match self.slot(player_id) {
            Some(i) => {
                let bytes = self.input_entries[i].current.to_bytes();
                u64_from_le_bytes(&bytes) as i64
            },
            None => INVALID_RAW_INPUT,
        }
    }

    /// Raw axes of a stick this tick, `None` for an unknown player.
    pub fn stick_axes(&self, player_id: i32, stick: Stick) -> (r: Option<StickAxes>)
        ensures
            r is Some <==> self.valid_player(player_id),
            r is Some ==> r->0 == match stick {
                Stick::Left => self.entry(player_id).current.left_stick,
                Stick::Right => self.entry(player_id).current.right_stick,
            },
    {
        match self.slot(player_id) {
            Some(i) => match stick {
                Stick::Left => Some(self.input_entries[i].current.left_stick),
                Stick::Right => Some(self.input_entries[i].current.right_stick),
            },
            None => None,
        }
    }

    /// Raw value of a trigger this tick, `None` for an unknown player.
    pub fn trigger_value(&self, player_id: i32, side: TriggerSide) -> (r: Option<u8>)
        ensures
            r is Some <==> self.valid_player(player_id),
            r is Some ==> r->0 == match side {
                TriggerSide::LeftTrigger => self.entry(player_id).current.left_trigger,
                TriggerSide::RightTrigger => self.entry(player_id).current.right_trigger,
            },
    {
        match self.slot(player_id) {
            Some(i) => match side {
                TriggerSide::LeftTrigger => Some(self.input_entries[i].current.left_trigger),
                TriggerSide::RightTrigger => Some(self.input_entries[i].current.right_trigger),
            },
            None => None,
        }
    }

    /// Any non-zero value locks the pointer to the play area.
    pub fn lock_mouse(&mut self, locked: i32)
        ensures
            final(self).mouse_locked == (locked != 0),
            final(self).input_entries == old(self).input_entries,
    {
        self.mouse_locked = locked != 0;
    }
}

} // verus!
