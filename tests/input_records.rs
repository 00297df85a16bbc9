use nethercade::input::{
    adjust_input_state, generate_emulated_state, AnalogStick, ButtonCode, Buttons, InputState,
    KeyType, ToBitMask, TriggerSide, AXIS_MAX, AXIS_MIN, BUTTON_CODES, TRIGGER_MAX,
};
use nethercade::input_context::{InputContext, MouseAxis, MouseButton, WheelDirection};
use nethercade::mouse::{generate_mouse_state, MouseEventCollector, MouseState, INVALID_RAW_MOUSE};
use nethercade::network::NetworkInputState;

#[test]
fn button_masks_are_fixed() {
    assert_eq!(ButtonCode::ButtonA.to_bit_mask(), 0b1);
    assert_eq!(ButtonCode::Select.to_bit_mask(), 0b10_0000);
    assert_eq!(ButtonCode::Up.to_bit_mask(), 0b100_0000);
    assert_eq!(ButtonCode::Right.to_bit_mask(), 0b10_0000_0000);
    assert_eq!(ButtonCode::RightStick.to_bit_mask(), 0b10_0000_0000_0000);
    assert_eq!(ButtonCode::RightTrigger.to_bit_mask(), 0b1000_0000_0000_0000);
    let mut all = 0u16;
    for c in BUTTON_CODES.iter() {
        assert_eq!(all & c.to_bit_mask(), 0);
        all |= c.to_bit_mask();
    }
    assert_eq!(all, u16::MAX);
}

#[test]
fn enabling_a_button_touches_only_it() {
    let mut b = Buttons { bits: 0 };
    b.enable_button(ButtonCode::Start);
    assert!(b.get_button_state(ButtonCode::Start));
    assert!(!b.get_button_state(ButtonCode::Select));
    assert_eq!(b.bits, 0b1_0000);
}

fn context_with(previous: bool, current: bool) -> InputContext {
    let mut ctx = InputContext::new(1);
    if previous {
        ctx.input_entries[0].previous.enable_button(ButtonCode::ButtonA);
    }
    if current {
        ctx.input_entries[0].current.buttons.enable_button(ButtonCode::ButtonA);
    }
    ctx
}

#[test]
fn press_and_release_edges() {
    let up_down = context_with(false, true);
    assert_eq!(up_down.button_pressed(0, ButtonCode::ButtonA), 1);
    assert_eq!(up_down.button_released(0, ButtonCode::ButtonA), 0);
    assert_eq!(up_down.button_held(0, ButtonCode::ButtonA), 1);
    let down_up = context_with(true, false);
    assert_eq!(down_up.button_pressed(0, ButtonCode::ButtonA), 0);
    assert_eq!(down_up.button_released(0, ButtonCode::ButtonA), 1);
    assert_eq!(down_up.button_held(0, ButtonCode::ButtonA), 0);
    for same in [false, true] {
        let ctx = context_with(same, same);
        assert_eq!(ctx.button_pressed(0, ButtonCode::ButtonA), 0);
        assert_eq!(ctx.button_released(0, ButtonCode::ButtonA), 0);
    }
}

#[test]
fn unknown_players_read_sentinels() {
    let ctx = InputContext::new(2);
    assert_eq!(ctx.button_pressed(2, ButtonCode::Up), -1);
    assert_eq!(ctx.button_held(-1, ButtonCode::Up), -1);
    assert_eq!(ctx.mouse_pos(5, MouseAxis::X), -1);
    assert_eq!(ctx.mouse_delta(5, MouseAxis::Y), i32::MIN);
    assert_eq!(ctx.mouse_wheel(5, WheelDirection::Up), -1);
    assert_eq!(ctx.raw_mouse_state(5), INVALID_RAW_MOUSE);
    assert_eq!(ctx.raw_input_state(5), -1);
    assert_eq!(ctx.stick_axes(5, nethercade::input_context::Stick::Left), None);
    assert_eq!(ctx.trigger_value(2, TriggerSide::LeftTrigger), None);
}

#[test]
fn mouse_button_edges() {
    let mut ctx = InputContext::new(1);
    ctx.input_entries[0].current_mouse.left_button = true;
    ctx.input_entries[0].previous_mouse.right_button = true;
    assert_eq!(ctx.mouse_button_pressed(0, MouseButton::Left), 1);
    assert_eq!(ctx.mouse_button_released(0, MouseButton::Right), 1);
    assert_eq!(ctx.mouse_button_held(0, MouseButton::Middle), 0);
}

#[test]
fn emulated_keys_drive_buttons_sticks_and_triggers() {
    let held = vec![
        KeyType::Button(ButtonCode::ButtonB),
        KeyType::AnalogStick(AnalogStick::LeftXNegative),
        KeyType::AnalogStick(AnalogStick::RightYPositive),
        KeyType::Trigger(TriggerSide::LeftTrigger),
    ];
    let s = generate_emulated_state(&held);
    assert_eq!(s.buttons.bits, ButtonCode::ButtonB.to_bit_mask() | ButtonCode::LeftTrigger.to_bit_mask());
    assert_eq!(s.left_stick.x, AXIS_MIN);
    assert_eq!(s.left_stick.y, 0);
    assert_eq!(s.right_stick.y, AXIS_MAX);
    assert_eq!(s.left_trigger, TRIGGER_MAX);
    assert_eq!(s.right_trigger, 0);
    assert_eq!(generate_emulated_state(&vec![]), InputState::new());
}

#[test]
fn later_key_on_an_axis_wins() {
    let held = vec![
        KeyType::AnalogStick(AnalogStick::LeftXNegative),
        KeyType::AnalogStick(AnalogStick::LeftXPositive),
    ];
    assert_eq!(generate_emulated_state(&held).left_stick.x, 127);
    let mut s = InputState::new();
    adjust_input_state(&AnalogStick::RightXNegative, &mut s);
    assert_eq!(s.right_stick.x, -127);
    assert_eq!(s.left_stick.x, 0);
}

#[test]
fn input_state_bytes() {
    let mut s = InputState::new();
    s.buttons.bits = 0x1234;
    s.left_stick.x = -1;
    s.right_stick.y = 5;
    s.right_trigger = 200;
    let b = s.to_bytes();
    assert_eq!(b, [0x34, 0x12, 0xFF, 0, 0, 5, 0, 200]);
    assert_eq!(InputState::from_bytes(&b), s);
    let mut ctx = InputContext::new(1);
    ctx.input_entries[0].current = s;
    assert_eq!(ctx.raw_input_state(0), i64::from_le_bytes(b));
}

#[test]
fn absent_mouse_reads_max_coordinates() {
    let events = MouseEventCollector::default();
    let m = generate_mouse_state(None, &events);
    assert_eq!(m.get_x_pos(), u32::MAX);
    assert_eq!(m.get_y_pos(), u32::MAX);
    let mut ctx = InputContext::new(1);
    ctx.input_entries[0].current_mouse = m;
    assert_eq!(ctx.mouse_pos(0, MouseAxis::X), -1);
}

#[test]
fn mouse_record_packs_fields() {
    let events = MouseEventCollector {
        wheel_up: true,
        wheel_down: false,
        wheel_left: false,
        wheel_right: true,
        delta_x: -3,
        delta_y: 300,
        button_left: true,
        button_right: false,
        button_middle: true,
    };
    let m = generate_mouse_state(Some((100, 50)), &events);
    assert_eq!(m.get_x_pos(), 100);
    assert_eq!(m.get_y_pos(), 50);
    let bits = m.to_bits();
    let expected: u64 = 100
        | (50 << 12)
        | ((0xFFFD_u64) << 24)
        | (300 << 40)
        | (1 << 56)
        | (1 << 58)
        | (1 << 59)
        | (1 << 62);
    assert_eq!(bits, expected);
    assert_eq!(MouseState::from_bits(bits), m);
    let mut ctx = InputContext::new(1);
    ctx.input_entries[0].current_mouse = m;
    assert_eq!(ctx.raw_mouse_state(0), expected as i64);
    assert_eq!(ctx.mouse_delta(0, MouseAxis::X), -3);
    assert_eq!(ctx.mouse_wheel(0, WheelDirection::Right), 1);
}

#[test]
fn mouse_setters_saturate() {
    let mut m = MouseState::absent();
    m.set_x_pos(5000);
    assert_eq!(m.get_x_pos(), u32::MAX);
    m.set_x_delta(40_000);
    assert_eq!(m.x_delta, i16::MAX);
    m.set_y_delta(-40_000);
    assert_eq!(m.y_delta, i16::MIN);
    let mut e = MouseEventCollector::default();
    e.add_motion(i16::MAX, -5);
    e.add_motion(10, -5);
    assert_eq!(e.delta_x, i16::MAX);
    assert_eq!(e.delta_y, -10);
    e.add_wheel(3, -1);
    e.add_wheel(0, 0);
    assert!(e.wheel_right && e.wheel_up && !e.wheel_left && !e.wheel_down);
    e.press(MouseButton::Middle);
    assert!(e.button_middle && !e.button_left);
}

#[test]
fn wire_bytes_round_trip() {
    let mut s = NetworkInputState::default();
    s.input_state.buttons.bits = 0xBEEF;
    s.input_state.left_trigger = 7;
    s.mouse_state.set_x_pos(1919);
    s.mouse_state.set_y_delta(-2);
    s.mouse_state.wheel_down = true;
    let wire = s.to_bytes();
    assert_eq!(wire[0], 0xEF);
    assert_eq!(wire[1], 0xBE);
    assert_eq!(NetworkInputState::from_bytes(&wire), s);
}
