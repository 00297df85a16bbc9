use vstd::prelude::*;

use crate::input_context::MouseButton;

verus! {

/// Stored coordinate that stands for "no position": the pointer is outside the play area.
pub const POS_ABSENT_RAW: u16 = 0xFFF;

/// Bit of a raw mouse value that marks a player slot with no mouse.
pub const MOUSE_INVALID_BIT: u64 = 63;

/// Raw mouse value a guest reads for a player slot that does not exist.
pub const INVALID_RAW_MOUSE: i64 = i64::MIN;

pub open spec fn flag(b: bool) -> u64 {
    if b {
        1
    } else {
        0
    }
}

/// Mouse state of one player for one tick. On the wire it is one 64-bit record:
/// x (12 bits), y (12 bits), x motion (16 bits), y motion (16 bits), the left, right and
/// middle buttons, then the wheel up, down, left and right bits.
#[derive(Debug, Clone, Copy, PartialEq, Eq, Structural, Hash, Default)]
pub struct MouseState {
    pub x_pos: u16,
    pub y_pos: u16,
    pub x_delta: i16,
    pub y_delta: i16,
    pub left_button: bool,
    pub right_button: bool,
    pub middle_button: bool,
    pub wheel_up: bool,
    pub wheel_down: bool,
    pub wheel_left: bool,
    pub wheel_right: bool,
}

pub open spec fn pack_mouse(
    x: u64,
    y: u64,
    dx: u64,
    dy: u64,
    f0: u64,
    f1: u64,
    f2: u64,
    f3: u64,
    f4: u64,
    f5: u64,
    f6: u64,
) -> u64 {
    x | (y << 12u64) | (dx << 24u64) | (dy << 40u64) | (f0 << 56u64) | (f1 << 57u64) | (f2
        << 58u64) | (f3 << 59u64) | (f4 << 60u64) | (f5 << 61u64) | (f6 << 62u64)
}

proof fn lemma_pack_mouse(
    x: u64,
    y: u64,
    dx: u64,
    dy: u64,
    f0: u64,
    f1: u64,
    f2: u64,
    f3: u64,
    f4: u64,
    f5: u64,
    f6: u64,
)
    requires
        x < 4096,
        y < 4096,
        dx < 65536,
        dy < 65536,
        f0 <= 1,
        f1 <= 1,
        f2 <= 1,
        f3 <= 1,
        f4 <= 1,
        f5 <= 1,
        f6 <= 1,
    ensures
        ({
            let b = pack_mouse(x, y, dx, dy, f0, f1, f2, f3, f4, f5, f6);
            &&& b & 0xFFFu64 == x
            &&& (b >> 12u64) & 0xFFFu64 == y
            &&& (b >> 24u64) & 0xFFFFu64 == dx
            &&& (b >> 40u64) & 0xFFFFu64 == dy
            &&& (b >> 56u64) & 1u64 == f0
            &&& (b >> 57u64) & 1u64 == f1
            &&& (b >> 58u64) & 1u64 == f2
            &&& (b >> 59u64) & 1u64 == f3
            &&& (b >> 60u64) & 1u64 == f4
            &&& (b >> 61u64) & 1u64 == f5
            &&& (b >> 62u64) & 1u64 == f6
            &&& b >> 63u64 == 0
        }),
{
    assert({
        let b = x | (y << 12u64) | (dx << 24u64) | (dy << 40u64) | (f0 << 56u64) | (f1 << 57u64)
            | (f2 << 58u64) | (f3 << 59u64) | (f4 << 60u64) | (f5 << 61u64) | (f6 << 62u64);
        &&& b & 0xFFFu64 == x
        &&& (b >> 12u64) & 0xFFFu64 == y
        &&& (b >> 24u64) & 0xFFFFu64 == dx
        &&& (b >> 40u64) & 0xFFFFu64 == dy
        &&& (b >> 56u64) & 1u64 == f0
        &&& (b >> 57u64) & 1u64 == f1
        &&& (b >> 58u64) & 1u64 == f2
        &&& (b >> 59u64) & 1u64 == f3
        &&& (b >> 60u64) & 1u64 == f4
        &&& (b >> 61u64) & 1u64 == f5
        &&& (b >> 62u64) & 1u64 == f6
        &&& b >> 63u64 == 0
    }) by (bit_vector)
        requires
            x < 4096,
            y < 4096,
            dx < 65536,
            dy < 65536,
            f0 <= 1,
            f1 <= 1,
            f2 <= 1,
            f3 <= 1,
            f4 <= 1,
            f5 <= 1,
            f6 <= 1,
    ;
}

impl MouseState {
    pub open spec fn wf(self) -> bool {
        self.x_pos <= POS_ABSENT_RAW && self.y_pos <= POS_ABSENT_RAW
    }

    /// The stored coordinate for a position the guest reads as `v`.
    pub open spec fn pos_raw(v: u32) -> u16 {
        if v >= POS_ABSENT_RAW as u32 {
            POS_ABSENT_RAW
        } else {
            v as u16
        }
    }

    /// The position a guest reads for a stored coordinate.
    pub open spec fn pos_value(raw: u16) -> u32 {
        if raw == POS_ABSENT_RAW {
            u32::MAX
        } else {
            raw as u32
        }
    }

    pub open spec fn delta_raw(v: int) -> i16 {
        if v > i16::MAX {
            i16::MAX
        } else if v < i16::MIN {
            i16::MIN
        } else {
            v as i16
        }
    }

    pub open spec fn bits_spec(self) -> u64 {
        pack_mouse(
            self.x_pos as u64,
            self.y_pos as u64,
            (self.x_delta as u16) as u64,
            (self.y_delta as u16) as u64,
            flag(self.left_button),
            flag(self.right_button),
            flag(self.middle_button),
            flag(self.wheel_up),
            flag(self.wheel_down),
            flag(self.wheel_left),
            flag(self.wheel_right),
        )
    }

    pub open spec fn from_bits_spec(b: u64) -> MouseState {
        MouseState {
            x_pos: (b & 0xFFFu64) as u16,
            y_pos: ((b >> 12u64) & 0xFFFu64) as u16,
            x_delta: (((b >> 24u64) & 0xFFFFu64) as u16) as i16,
            y_delta: (((b >> 40u64) & 0xFFFFu64) as u16) as i16,
            left_button: (b >> 56u64) & 1u64 == 1,
            right_button: (b >> 57u64) & 1u64 == 1,
            middle_button: (b >> 58u64) & 1u64 == 1,
            wheel_up: (b >> 59u64) & 1u64 == 1,
            wheel_down: (b >> 60u64) & 1u64 == 1,
            wheel_left: (b >> 61u64) & 1u64 == 1,
            wheel_right: (b >> 62u64) & 1u64 == 1,
        }
    }

    /// No position, no motion, nothing pressed.
    pub fn absent() -> (r: MouseState)
        ensures
            r.wf(),
            Self::pos_value(r.x_pos) == u32::MAX,
            Self::pos_value(r.y_pos) == u32::MAX,
            r.x_delta == 0 && r.y_delta == 0,
            !r.left_button && !r.right_button && !r.middle_button,
            !r.wheel_up && !r.wheel_down && !r.wheel_left && !r.wheel_right,
    {
        MouseState {
            x_pos: POS_ABSENT_RAW,
            y_pos: POS_ABSENT_RAW,
            x_delta: 0,
            y_delta: 0,
            left_button: false,
            right_button: false,
            middle_button: false,
            wheel_up: false,
            wheel_down: false,
            wheel_left: false,
            wheel_right: false,
        }
    }

    /// Stores a horizontal position; `u32::MAX`, and anything past the widest play area,
    /// is "no position".
    pub fn set_x_pos(&mut self, v: u32)
        ensures
            *final(self) == (MouseState { x_pos: Self::pos_raw(v), ..*old(self) }),
    {
        self.x_pos = if v >= POS_ABSENT_RAW as u32 {
            POS_ABSENT_RAW
        } else {
            v as u16
        };
    }

    pub fn set_y_pos(&mut self, v: u32)
        ensures
            *final(self) == (MouseState { y_pos: Self::pos_raw(v), ..*old(self) }),
    {
        self.y_pos = if v >= POS_ABSENT_RAW as u32 {
            POS_ABSENT_RAW
        } else {
            v as u16
        };
    }

    pub fn get_x_pos(&self) -> (r: u32)
        ensures
            r == Self::pos_value(self.x_pos),
    {
        if self.x_pos == POS_ABSENT_RAW {
            u32::MAX
        } else {
            self.x_pos as u32
        }
    }

    pub fn get_y_pos(&self) -> (r: u32)
        ensures
            r == Self::pos_value(self.y_pos),
    {
        if self.y_pos == POS_ABSENT_RAW {
            u32::MAX
        } else {
            self.y_pos as u32
        }
    }

    /// Stores a horizontal motion, saturated to the 16 bits the record holds.
    pub fn set_x_delta(&mut self, v: i32)
        ensures
            *final(self) == (MouseState { x_delta: Self::delta_raw(v as int), ..*old(self) }),
    {
        self.x_delta = clamp_i16(v);
    }

    pub fn set_y_delta(&mut self, v: i32)
        ensures
            *final(self) == (MouseState { y_delta: Self::delta_raw(v as int), ..*old(self) }),
    {
        self.y_delta = clamp_i16(v);
    }

    /// The packed 64-bit record, as a guest reads it raw.
    pub fn to_bits(&self) -> (r: u64)
        requires
            self.wf(),
        ensures
            r == self.bits_spec(),
            r >> 63u64 == 0,
            Self::from_bits_spec(r) == *self,
    {
        let x = self.x_pos as u64;
        let y = self.y_pos as u64;
        let dx = (self.x_delta as u16) as u64;
        let dy = (self.y_delta as u16) as u64;
        let f0: u64 = if self.left_button { 1 } else { 0 };
        let f1: u64 = if self.right_button { 1 } else { 0 };
        let f2: u64 = if self.middle_button { 1 } else { 0 };
        let f3: u64 = if self.wheel_up { 1 } else { 0 };
        let f4: u64 = if self.wheel_down { 1 } else { 0 };
        let f5: u64 = if self.wheel_left { 1 } else { 0 };
        let f6: u64 = if self.wheel_right { 1 } else { 0 };
        proof {
            lemma_pack_mouse(x, y, dx, dy, f0, f1, f2, f3, f4, f5, f6);
            lemma_i16_u16_round_trip(self.x_delta);
            lemma_i16_u16_round_trip(self.y_delta);
        }
        x | (y << 12u64) | (dx << 24u64) | (dy << 40u64) | (f0 << 56u64) | (f1 << 57u64) | (f2
            << 58u64) | (f3 << 59u64) | (f4 << 60u64) | (f5 << 61u64) | (f6 << 62u64)
    }

    /// Unpacking a packed record gives it back.
    pub proof fn lemma_bits_round_trip(self)
        requires
            self.wf(),
        ensures
            Self::from_bits_spec(self.bits_spec()) == self,
    {
        lemma_pack_mouse(
            self.x_pos as u64,
            self.y_pos as u64,
            (self.x_delta as u16) as u64,
            (self.y_delta as u16) as u64,
            flag(self.left_button),
            flag(self.right_button),
            flag(self.middle_button),
            flag(self.wheel_up),
            flag(self.wheel_down),
            flag(self.wheel_left),
            flag(self.wheel_right),
        );
        lemma_i16_u16_round_trip(self.x_delta);
        lemma_i16_u16_round_trip(self.y_delta);
    }

    /// Unpacks a 64-bit record; the bit above the wheel bits is ignored.
    pub fn from_bits(b: u64) -> (r: MouseState)
        ensures
            r == Self::from_bits_spec(b),
            r.wf(),
    {
        proof {
            assert(b & 0xFFFu64 <= 0xFFFu64) by (bit_vector);
            assert((b >> 12u64) & 0xFFFu64 <= 0xFFFu64) by (bit_vector);
        }
        MouseState {
            x_pos: (b & 0xFFFu64) as u16,
            y_pos: ((b >> 12u64) & 0xFFFu64) as u16,
            x_delta: (((b >> 24u64) & 0xFFFFu64) as u16) as i16,
            y_delta: (((b >> 40u64) & 0xFFFFu64) as u16) as i16,
            left_button: (b >> 56u64) & 1u64 == 1,
            right_button: (b >> 57u64) & 1u64 == 1,
            middle_button: (b >> 58u64) & 1u64 == 1,
            wheel_up: (b >> 59u64) & 1u64 == 1,
            wheel_down: (b >> 60u64) & 1u64 == 1,
            wheel_left: (b >> 61u64) & 1u64 == 1,
            wheel_right: (b >> 62u64) & 1u64 == 1,
        }
    }
}

proof fn lemma_i16_u16_round_trip(x: i16)
    ensures
        ((x as u16) as i16) == x,
{
    assert(((x as u16) as i16) == x) by (bit_vector);
}

fn clamp_i16(v: i32) -> (r: i16)
    ensures
        r == MouseState::delta_raw(v as int),
{
    if v > i16::MAX as i32 {
        i16::MAX
    } else if v < i16::MIN as i32 {
        i16::MIN
    } else {
        v as i16
    }
}

/// Pointer events gathered over one host frame.
#[derive(Debug, Clone, Copy, PartialEq, Eq, Structural, Default)]
pub struct MouseEventCollector {
    pub wheel_up: bool,
    pub wheel_down: bool,
    pub wheel_left: bool,
    pub wheel_right: bool,
    pub delta_x: i16,
    pub delta_y: i16,
    pub button_left: bool,
    pub button_right: bool,
    pub button_middle: bool,
}

impl MouseEventCollector {
    /// Records a button going down during the frame.
    pub fn press(&mut self, button: MouseButton)
        ensures
            *final(self) == match button {
                MouseButton::Left => MouseEventCollector { button_left: true, ..*old(self) },
                MouseButton::Right => MouseEventCollector { button_right: true, ..*old(self) },
                MouseButton::Middle => MouseEventCollector { button_middle: true, ..*old(self) },
            },
    {
        match button {
            MouseButton::Left => self.button_left = true,
            MouseButton::Right => self.button_right = true,
            MouseButton::Middle => self.button_middle = true,
        }
    }

    /// Records a wheel movement by the signs of its two components: positive x scrolls
    /// right, negative x left, positive y down, negative y up.
    pub fn add_wheel(&mut self, dx: i32, dy: i32)
        ensures
            final(self).wheel_right == (old(self).wheel_right || dx > 0),
            final(self).wheel_left == (old(self).wheel_left || dx < 0),
            final(self).wheel_down == (old(self).wheel_down || dy > 0),
            final(self).wheel_up == (old(self).wheel_up || dy < 0),
            final(self).delta_x == old(self).delta_x,
            final(self).delta_y == old(self).delta_y,
            final(self).button_left == old(self).button_left,
            final(self).button_right == old(self).button_right,
            final(self).button_middle == old(self).button_middle,
    {
        if dx > 0 {
            self.wheel_right = true;
        } else if dx < 0 {
            self.wheel_left = true;
        }
        if dy > 0 {
            self.wheel_down = true;
        } else if dy < 0 {
            self.wheel_up = true;
        }
    }

    /// Adds one pointer motion, saturating at the range of the counters.
    pub fn add_motion(&mut self, dx: i16, dy: i16)
        ensures
            final(self).delta_x == MouseState::delta_raw(old(self).delta_x + dx),
            final(self).delta_y == MouseState::delta_raw(old(self).delta_y + dy),
            final(self).button_left == old(self).button_left,
            final(self).button_right == old(self).button_right,
            final(self).button_middle == old(self).button_middle,
            final(self).wheel_up == old(self).wheel_up,
            final(self).wheel_down == old(self).wheel_down,
            final(self).wheel_left == old(self).wheel_left,
            final(self).wheel_right == old(self).wheel_right,
    {
        self.delta_x = clamp_i16(self.delta_x as i32 + dx as i32);
        self.delta_y = clamp_i16(self.delta_y as i32 + dy as i32);
    }
}

/// The mouse record of one tick: the pointer position inside the play area (or none),
/// and the frame's buttons, motion and wheel directions.
pub fn generate_mouse_state(mouse_pos: Option<(u32, u32)>, events: &MouseEventCollector) -> (r:
    MouseState)
    ensures
        r.wf(),
        mouse_pos is None ==> MouseState::pos_value(r.x_pos) == u32::MAX && MouseState::pos_value(r.y_pos)
            == u32::MAX,
        mouse_pos matches Some(p) ==> r.x_pos == MouseState::pos_raw(p.0) && r.y_pos
            == MouseState::pos_raw(p.1),
        r.left_button == events.button_left,
        r.right_button == events.button_right,
        r.middle_button == events.button_middle,
        r.x_delta == events.delta_x,
        r.y_delta == events.delta_y,
        r.wheel_up == events.wheel_up,
        r.wheel_down == events.wheel_down,
        r.wheel_left == events.wheel_left,
        r.wheel_right == events.wheel_right,
{
    let mut out = MouseState::absent();
    match mouse_pos {
        Some((x, y)) => {
            out.set_x_pos(x);
            out.set_y_pos(y);
        },
        None => {
            out.set_x_pos(u32::MAX);
            out.set_y_pos(u32::MAX);
        },
    }
    out.left_button = events.button_left;
    out.right_button = events.button_right;
    out.middle_button = events.button_middle;
    out.set_x_delta(events.delta_x as i32);
    out.set_y_delta(events.delta_y as i32);
    out.wheel_up = events.wheel_up;
    out.wheel_down = events.wheel_down;
    out.wheel_left = events.wheel_left;
    out.wheel_right = events.wheel_right;
    out
}

} // verus!
