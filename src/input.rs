use vstd::prelude::*;

verus! {

/// A logical button of a player's controller. Each owns one fixed bit of [`Buttons`].
#[derive(Debug, Clone, Copy, PartialEq, Eq, Structural, Hash)]
pub enum ButtonCode {
    Up,
    Down,
    Left,
    Right,
    ButtonA,
    ButtonB,
    ButtonC,
    ButtonD,
    Start,
    Select,
    LeftShoulder,
    RightShoulder,
    LeftStick,
    RightStick,
    LeftTrigger,
    RightTrigger,
}

/// Every logical button, in declaration order.
pub const BUTTON_CODES: [ButtonCode; 16] = [
    ButtonCode::Up,
    ButtonCode::Down,
    ButtonCode::Left,
    ButtonCode::Right,
    ButtonCode::ButtonA,
    ButtonCode::ButtonB,
    ButtonCode::ButtonC,
    ButtonCode::ButtonD,
    ButtonCode::Start,
    ButtonCode::Select,
    ButtonCode::LeftShoulder,
    ButtonCode::RightShoulder,
    ButtonCode::LeftStick,
    ButtonCode::RightStick,
    ButtonCode::LeftTrigger,
    ButtonCode::RightTrigger,
];

impl ButtonCode {
    /// Position of the button's bit in the wire mask. Never reordered.
    pub open spec fn bit_spec(self) -> u16 {
        match self {
            ButtonCode::ButtonA => 0,
            ButtonCode::ButtonB => 1,
            ButtonCode::ButtonC => 2,
            ButtonCode::ButtonD => 3,
            ButtonCode::Start => 4,
            ButtonCode::Select => 5,
            ButtonCode::Up => 6,
            ButtonCode::Down => 7,
            ButtonCode::Left => 8,
            ButtonCode::Right => 9,
            ButtonCode::LeftShoulder => 10,
            ButtonCode::RightShoulder => 11,
            ButtonCode::LeftStick => 12,
            ButtonCode::RightStick => 13,
            ButtonCode::LeftTrigger => 14,
            ButtonCode::RightTrigger => 15,
        }
    }

    pub open spec fn mask_spec(self) -> u16 {
        1u16 << self.bit_spec()
    }

    pub fn bit(&self) -> (r: u16)
        ensures
            r == self.bit_spec(),
            r < 16,
    {
        match self {
            ButtonCode::ButtonA => 0,
            ButtonCode::ButtonB => 1,
            ButtonCode::ButtonC => 2,
            ButtonCode::ButtonD => 3,
            ButtonCode::Start => 4,
            ButtonCode::Select => 5,
            ButtonCode::Up => 6,
            ButtonCode::Down => 7,
            ButtonCode::Left => 8,
            ButtonCode::Right => 9,
            ButtonCode::LeftShoulder => 10,
            ButtonCode::RightShoulder => 11,
            ButtonCode::LeftStick => 12,
            ButtonCode::RightStick => 13,
            ButtonCode::LeftTrigger => 14,
            ButtonCode::RightTrigger => 15,
        }
    }
}

/// Distinct buttons own distinct bits.
pub proof fn lemma_bits_distinct(a: ButtonCode, b: ButtonCode)
    ensures
        a.bit_spec() < 16,
        a.bit_spec() == b.bit_spec() <==> a == b,
{
}

/// Index of a local keyboard binding set.
#[derive(Debug, Clone, Copy, PartialEq, Eq, Structural, Hash)]
pub struct LocalKeyboardId(pub usize);

/// Index of a player on this machine.
#[derive(Debug, Clone, Copy, PartialEq, Eq, Structural, Hash)]
pub struct LocalPlayerId(pub usize);

/// Conversion of a flag into its bit mask.
pub trait ToBitMask<T> {
    fn to_bit_mask(&self) -> T;
}

impl ToBitMask<u16> for ButtonCode {
    fn to_bit_mask(&self) -> (r: u16)
        ensures
            r == self.mask_spec(),
    {
        1u16 << self.bit()
    }
}

/// Whether bit `i` of `b` is set.
pub open spec fn bit_set(b: u16, i: u16) -> bool {
    (b >> i) & 1u16 == 1u16
}

proof fn lemma_or_bit(b: u16, i: u16, j: u16)
    requires
        i < 16,
        j < 16,
    ensures
        bit_set(b | (1u16 << i), j) == (i == j || bit_set(b, j)),
{
    assert(((b | (1u16 << i)) >> j) & 1u16 == 1u16 <==> (i == j || (b >> j) & 1u16 == 1u16))
        by (bit_vector)
        requires
            i < 16,
            j < 16,
    ;
}

/// No bit of zero is set.
pub proof fn lemma_zero_bits(i: u16)
    requires
        i < 16,
    ensures
        !bit_set(0, i),
{
    assert((0u16 >> i) & 1u16 != 1u16) by (bit_vector)
        requires
            i < 16,
    ;
}

proof fn lemma_and_bit(b: u16, i: u16)
    requires
        i < 16,
    ensures
        ((b & (1u16 << i)) != 0) == bit_set(b, i),
{
    assert(((b & (1u16 << i)) != 0) <==> (b >> i) & 1u16 == 1u16) by (bit_vector)
        requires
            i < 16,
    ;
}

/// The held buttons of one player, one bit per [`ButtonCode`].
#[derive(Debug, Clone, Copy, PartialEq, Eq, Structural, Hash, Default)]
pub struct Buttons {
    pub bits: u16,
}

impl Buttons {
    pub open spec fn held(self, code: ButtonCode) -> bool {
        bit_set(self.bits, code.bit_spec())
    }

    pub fn get_button_state(&self, code: ButtonCode) -> (r: bool)
        ensures
            r == self.held(code),
    {
        proof {
            lemma_and_bit(self.bits, code.bit_spec());
        }
        (self.bits & code.to_bit_mask()) != 0
    }

    /// Marks `code` held; every other button keeps its state.
    pub fn enable_button(&mut self, code: ButtonCode)
        ensures
            final(self).bits == old(self).bits | code.mask_spec(),
            forall|c: ButtonCode| #[trigger] final(self).held(c) == (c == code || old(self).held(c)),
    {
        let ghost before = self.bits;
        self.bits = self.bits | code.to_bit_mask();
        proof {
            assert forall|c: ButtonCode| #[trigger] self.held(c) == (c == code || bit_set(before, c.bit_spec())) by {
                lemma_or_bit(before, code.bit_spec(), c.bit_spec());
                lemma_bits_distinct(c, code);
            }
        }
    }
}

/// Raw deflection of a stick axis at full scale in either direction.
pub const AXIS_MAX: i8 = 127;

/// Raw deflection of a stick axis at full scale in the negative direction.
pub const AXIS_MIN: i8 = -127;

/// Raw value of a fully pulled trigger.
pub const TRIGGER_MAX: u8 = 255;

/// The two axes of an analog stick, quantised to `AXIS_MIN..=AXIS_MAX` per unit of deflection.
#[derive(Debug, Clone, Copy, PartialEq, Eq, Structural, Hash, Default)]
pub struct StickAxes {
    pub x: i8,
    pub y: i8,
}

/// One player's controller state for one tick: the unit the session synchronises.
#[derive(Debug, Clone, Copy, PartialEq, Eq, Structural, Hash, Default)]
pub struct InputState {
    pub buttons: Buttons,
    pub left_stick: StickAxes,
    pub right_stick: StickAxes,
    pub left_trigger: u8,
    pub right_trigger: u8,
}

/// Raw value a guest reads for the input state of a player slot that does not exist.
pub const INVALID_RAW_INPUT: i64 = -1;

pub open spec fn le16_lo(v: u16) -> u8 {
    (v % 256) as u8
}

pub open spec fn le16_hi(v: u16) -> u8 {
    (v / 256) as u8
}

impl InputState {
    pub open spec fn neutral() -> InputState {
        InputState {
            buttons: Buttons { bits: 0 },
            left_stick: StickAxes { x: 0, y: 0 },
            right_stick: StickAxes { x: 0, y: 0 },
            left_trigger: 0,
            right_trigger: 0,
        }
    }

    /// Nothing held, sticks centred, triggers released.
    pub fn new() -> (r: InputState)
        ensures
            r == Self::neutral(),
            forall|c: ButtonCode| !(#[trigger] r.buttons.held(c)),
    {
        proof {
            assert forall|c: ButtonCode| !(#[trigger] Buttons { bits: 0 }.held(c)) by {
                lemma_zero_bits(c.bit_spec());
            }
        }
        InputState {
            buttons: Buttons { bits: 0 },
            left_stick: StickAxes { x: 0, y: 0 },
            right_stick: StickAxes { x: 0, y: 0 },
            left_trigger: 0,
            right_trigger: 0,
        }
    }

    /// The fixed little-endian layout: buttons, left stick x and y, right stick x and y,
    /// left trigger, right trigger.
    pub open spec fn bytes_spec(self) -> Seq<u8> {
        seq![
            le16_lo(self.buttons.bits),
            le16_hi(self.buttons.bits),
            self.left_stick.x as u8,
            self.left_stick.y as u8,
            self.right_stick.x as u8,
            self.right_stick.y as u8,
            self.left_trigger,
            self.right_trigger,
        ]
    }

    pub fn to_bytes(&self) -> (r: [u8; 8])
        ensures
            r@ == self.bytes_spec(),
    {
        let r = [
            (self.buttons.bits % 256) as u8,
            (self.buttons.bits / 256) as u8,
            self.left_stick.x as u8,
            self.left_stick.y as u8,
            self.right_stick.x as u8,
            self.right_stick.y as u8,
            self.left_trigger,
            self.right_trigger,
        ];
        assert(r@ =~= self.bytes_spec());
        r
    }

    pub open spec fn from_bytes_spec(b: Seq<u8>) -> InputState
        recommends
            b.len() == 8,
    {
        InputState {
            buttons: Buttons { bits: (b[0] as u16 + (b[1] as u16) * 256) as u16 },
            left_stick: StickAxes { x: b[2] as i8, y: b[3] as i8 },
            right_stick: StickAxes { x: b[4] as i8, y: b[5] as i8 },
            left_trigger: b[6],
            right_trigger: b[7],
        }
    }

    pub fn from_bytes(b: &[u8; 8]) -> (r: InputState)
        ensures
            r == Self::from_bytes_spec(b@),
    {
        InputState {
            buttons: Buttons { bits: b[0] as u16 + (b[1] as u16) * 256 },
            left_stick: StickAxes { x: b[2] as i8, y: b[3] as i8 },
            right_stick: StickAxes { x: b[4] as i8, y: b[5] as i8 },
            left_trigger: b[6],
            right_trigger: b[7],
        }
    }
}

/// Decoding the bytes of an input state gives it back.
pub proof fn lemma_input_bytes_round_trip(s: InputState)
    ensures
        InputState::from_bytes_spec(s.bytes_spec()) == s,
{
    lemma_i8_u8_round_trip(s.left_stick.x);
    lemma_i8_u8_round_trip(s.left_stick.y);
    lemma_i8_u8_round_trip(s.right_stick.x);
    lemma_i8_u8_round_trip(s.right_stick.y);
}

proof fn lemma_i8_u8_round_trip(x: i8)
    ensures
        ((x as u8) as i8) == x,
{
    assert(((x as u8) as i8) == x) by (bit_vector);
}

/// One direction of one stick axis that a key can drive.
#[derive(Debug, Clone, Copy, PartialEq, Eq, Structural, Hash)]
pub enum AnalogStick {
    LeftXPositive,
    LeftXNegative,
    LeftYPositive,
    LeftYNegative,
    RightXPositive,
    RightXNegative,
    RightYPositive,
    RightYNegative,
}

#[derive(Debug, Clone, Copy, PartialEq, Eq, Structural, Hash)]
pub enum TriggerSide {
    LeftTrigger,
    RightTrigger,
}

/// What a bound keyboard key stands for in emulated-controller mode.
#[derive(Debug, Clone, Copy, PartialEq, Eq, Structural, Hash)]
pub enum KeyType {
    Button(ButtonCode),
    AnalogStick(AnalogStick),
    Trigger(TriggerSide),
}

/// The state after a held key drives one stick axis to full deflection.
pub open spec fn adjust_spec(a: AnalogStick, s: InputState) -> InputState {
    match a {
        AnalogStick::LeftXPositive => InputState {
            left_stick: StickAxes { x: AXIS_MAX, ..s.left_stick },
            ..s
        },
        AnalogStick::LeftXNegative => InputState {
            left_stick: StickAxes { x: AXIS_MIN, ..s.left_stick },
            ..s
        },
        AnalogStick::LeftYPositive => InputState {
            left_stick: StickAxes { y: AXIS_MAX, ..s.left_stick },
            ..s
        },
        AnalogStick::LeftYNegative => InputState {
            left_stick: StickAxes { y: AXIS_MIN, ..s.left_stick },
            ..s
        },
        AnalogStick::RightXPositive => InputState {
            right_stick: StickAxes { x: AXIS_MAX, ..s.right_stick },
            ..s
        },
        AnalogStick::RightXNegative => InputState {
            right_stick: StickAxes { x: AXIS_MIN, ..s.right_stick },
            ..s
        },
        AnalogStick::RightYPositive => InputState {
            right_stick: StickAxes { y: AXIS_MAX, ..s.right_stick },
            ..s
        },
        AnalogStick::RightYNegative => InputState {
            right_stick: StickAxes { y: AXIS_MIN, ..s.right_stick },
            ..s
        },
    }
}

/// The state after one held key takes effect.
pub open spec fn apply_key(s: InputState, k: KeyType) -> InputState {
    match k {
        KeyType::Button(c) => InputState {
            buttons: Buttons { bits: s.buttons.bits | c.mask_spec() },
            ..s
        },
        KeyType::AnalogStick(a) => adjust_spec(a, s),
        KeyType::Trigger(TriggerSide::LeftTrigger) => InputState {
            buttons: Buttons { bits: s.buttons.bits | ButtonCode::LeftTrigger.mask_spec() },
            left_trigger: TRIGGER_MAX,
            ..s
        },
        KeyType::Trigger(TriggerSide::RightTrigger) => InputState {
            buttons: Buttons { bits: s.buttons.bits | ButtonCode::RightTrigger.mask_spec() },
            right_trigger: TRIGGER_MAX,
            ..s
        },
    }
}

/// The state after the held keys take effect in order; a later key on the same axis wins.
pub open spec fn apply_keys(s: InputState, keys: Seq<KeyType>) -> InputState
    decreases keys.len(),
{
    if keys.len() == 0 {
        s
    } else {
        apply_key(apply_keys(s, keys.drop_last()), keys.last())
    }
}

/// Drives the axis that `analog_stick` names to full deflection in its direction.
pub fn adjust_input_state(analog_stick: &AnalogStick, input_state: &mut InputState)
    ensures
        *final(input_state) == adjust_spec(*analog_stick, *old(input_state)),
{
    match analog_stick {
        AnalogStick::LeftXPositive => {
            input_state.left_stick.x = AXIS_MAX;
        },
        AnalogStick::LeftXNegative => {
            input_state.left_stick.x = AXIS_MIN;
        },
        AnalogStick::LeftYPositive => {
            input_state.left_stick.y = AXIS_MAX;
        },
        AnalogStick::LeftYNegative => {
            input_state.left_stick.y = AXIS_MIN;
        },
        AnalogStick::RightXPositive => {
            input_state.right_stick.x = AXIS_MAX;
        },
        AnalogStick::RightXNegative => {
            input_state.right_stick.x = AXIS_MIN;
        },
        AnalogStick::RightYPositive => {
            input_state.right_stick.y = AXIS_MAX;
        },
        AnalogStick::RightYNegative => {
            input_state.right_stick.y = AXIS_MIN;
        },
    }
}

/// The input state of an emulated controller whose bound keys `held` are down, given in
/// binding order.
pub fn generate_emulated_state(held: &Vec<KeyType>) -> (r: InputState)
    ensures
        r == apply_keys(InputState::neutral(), held@),
{
    let mut output = InputState::new();
    let mut i: usize = 0;
    while i < held.len()
        invariant
            i <= held.len(),
            output == apply_keys(InputState::neutral(), held@.subrange(0, i as int)),
        decreases held.len() - i,
    {
        let key = held[i];
        match key {
            KeyType::Button(code) => output.buttons.enable_button(code),
            KeyType::AnalogStick(a) => adjust_input_state(&a, &mut output),
            KeyType::Trigger(TriggerSide::LeftTrigger) => {
                output.buttons.enable_button(ButtonCode::LeftTrigger);
                output.left_trigger = TRIGGER_MAX;
            },
            KeyType::Trigger(TriggerSide::RightTrigger) => {
                output.buttons.enable_button(ButtonCode::RightTrigger);
                output.right_trigger = TRIGGER_MAX;
            },
        }
        assert(held@.subrange(0, i + 1).drop_last() =~= held@.subrange(0, i as int));
        i = i + 1;
    }
    assert(held@.subrange(0, held.len() as int) =~= held@);
    output
}

} // verus!
