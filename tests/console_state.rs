use nethercade::audio_context::AudioContext;
use nethercade::console::{RollbackError, WasmContexts};
use nethercade::input::ButtonCode;
use nethercade::network::NetworkInputState;
use nethercade::random_context::RandomContext;
use nethercade::rom::Rom;
use nethercade::text_context::{LogError, TextContext};

fn pressed_a() -> [u8; 16] {
    let mut s = NetworkInputState::default();
    s.input_state.buttons.enable_button(ButtonCode::ButtonA);
    s.to_bytes()
}

#[test]
fn save_change_load_restores_everything_saved() {
    let rom = Rom::from_code(&[]);
    let mut ctx = WasmContexts::new(&rom, 2, 42);
    let mut memory = vec![1u8, 2, 3, 4];
    ctx.begin_frame(&vec![pressed_a(), NetworkInputState::default().to_bytes()]);
    ctx.end_frame();
    let saved = ctx.generate_save_state(&memory);
    assert_eq!(saved.memory, memory);
    assert_eq!(saved.rng_state, 42);

    memory[0] = 99;
    ctx.random.set_seed(7);
    ctx.begin_frame(&vec![NetworkInputState::default().to_bytes(); 2]);
    ctx.end_frame();
    assert!(!ctx.input.input_entries[0].previous.get_button_state(ButtonCode::ButtonA));

    assert_eq!(ctx.load_save_state(&saved, &mut memory), Ok(()));
    assert_eq!(memory, vec![1, 2, 3, 4]);
    assert_eq!(ctx.random.state, 42);
    assert!(ctx.input.input_entries[0].previous.get_button_state(ButtonCode::ButtonA));
    assert!(!ctx.input.input_entries[1].previous.get_button_state(ButtonCode::ButtonA));
}

#[test]
fn load_of_mismatched_snapshot_fails() {
    let rom = Rom::from_code(&[]);
    let mut ctx = WasmContexts::new(&rom, 2, 0);
    let saved = ctx.generate_save_state(&[0u8; 8]);
    let mut bigger = vec![5u8; 16];
    assert_eq!(ctx.load_save_state(&saved, &mut bigger), Err(RollbackError::MemorySizeMismatch));
    assert_eq!(bigger, vec![5u8; 16]);
    let mut other = WasmContexts::new(&rom, 3, 0);
    let mut mem = vec![0u8; 8];
    assert_eq!(other.load_save_state(&saved, &mut mem), Err(RollbackError::PlayerCountMismatch));
    let mut bad = ctx.generate_save_state(&[0u8; 8]);
    bad.previous_mouse[0].x_pos = 0x1000;
    assert_eq!(ctx.load_save_state(&bad, &mut mem), Err(RollbackError::MalformedSnapshot));
}

#[test]
fn advance_sets_current_then_rotates_previous() {
    let rom = Rom::from_code(&[]);
    let mut ctx = WasmContexts::new(&rom, 1, 0);
    ctx.begin_frame(&vec![pressed_a()]);
    assert_eq!(ctx.input.button_pressed(0, ButtonCode::ButtonA), 1);
    let mem = [0u8; 8];
    assert!(ctx.audio.push_audio(&mem, 0, 2, 5, 44100));
    let audio = ctx.end_frame();
    assert_eq!(audio.len(), 1);
    assert_eq!(audio[0].channels, 2);
    assert!(ctx.audio.pushed_audio.is_empty());
    ctx.begin_frame(&vec![pressed_a()]);
    assert_eq!(ctx.input.button_pressed(0, ButtonCode::ButtonA), 0);
    assert_eq!(ctx.input.button_held(0, ButtonCode::ButtonA), 1);
}

#[test]
fn audio_push_checks_bounds_and_clamps_channels() {
    let mem: Vec<u8> = (0..16).collect();
    let mut audio = AudioContext::new();
    assert!(!audio.push_audio(&mem, 8, 3, 1, 48000));
    assert!(audio.push_audio(&mem, 8, 2, 0, 48000));
    assert_eq!(audio.pushed_audio[0].channels, 1);
    assert_eq!(audio.pushed_audio[0].sample_rate, 48000);
    assert_eq!(audio.pushed_audio[0].data, vec![8, 9, 10, 11, 12, 13, 14, 15]);
    assert_eq!(audio.drain().len(), 1);
    assert!(audio.pushed_audio.is_empty());
}

#[test]
fn random_range_is_seeded_and_bounded() {
    let mut a = RandomContext::new(1);
    let mut b = RandomContext::new(1);
    a.set_seed(12345);
    b.set_seed(12345);
    for _ in 0..50 {
        let x = a.random_int_range(-3, 4).unwrap();
        assert!((-3..4).contains(&x));
        assert_eq!(Some(x), b.random_int_range(-3, 4));
    }
    assert_ne!(a.state, 12345);
    let before = a.state;
    assert_eq!(a.random_int_range(5, 5), None);
    assert_eq!(a.state, before);
    let mut c = RandomContext::new(9);
    let mut rng = fastrand::Rng::with_seed(9);
    assert_eq!(c.random_int_range(0, 1000), Some(rng.i32(0..1000)));
    assert_eq!(c.state, rng.get_seed());
}

#[test]
fn log_text_is_checked_utf8() {
    let mut mem = b"hello \xE2\x9C\x93 world".to_vec();
    assert_eq!(TextContext::read_log_text(&mem, 0, 5), Ok("hello".to_string()));
    assert_eq!(TextContext::read_log_text(&mem, 6, 3), Ok("\u{2713}".to_string()));
    assert_eq!(TextContext::read_log_text(&mem, 6, 2), Err(LogError::NotUtf8));
    assert_eq!(TextContext::read_log_text(&mem, 10, 100), Err(LogError::InvalidData));
    assert_eq!(TextContext::read_log_text(&mem, 0, -1), Err(LogError::InvalidData));
    mem[0] = 0xFF;
    assert_eq!(TextContext::read_log_text(&mem, 0, 1), Err(LogError::NotUtf8));
    assert_eq!(TextContext::read_log_text(&mem, 3, 0), Ok(String::new()));
}

#[test]
fn environment_queries() {
    let mut rom = Rom::from_code(&[]);
    rom.resolution = nethercade::resolution::Resolution::Compact;
    let ctx = WasmContexts::new(&rom, 1, 0);
    assert_eq!(ctx.data.width(), 480);
    assert_eq!(ctx.data.height(), 270);
    assert_eq!(ctx.data.fps(), 60);
}
