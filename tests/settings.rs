use nethercade::frame_rate::FrameRate;
use nethercade::resolution::Resolution;
use nethercade::rom::Rom;
use nethercade::session::{session_settings, Config, FrameClock, TickAction};

#[test]
fn frame_rate_tables() {
    assert_eq!(FrameRate::UltraFast.frames_per_second(), 120);
    assert_eq!(FrameRate::Fast.frames_per_second(), 60);
    assert_eq!(FrameRate::Retro.frames_per_second(), 30);
    assert_eq!(FrameRate::Cinematic.frames_per_second(), 24);
    assert_eq!(FrameRate::UltraFast.default_input_delay(), 3);
    assert_eq!(FrameRate::Fast.default_input_delay(), 2);
    assert_eq!(FrameRate::Retro.default_input_delay(), 1);
    assert_eq!(FrameRate::Cinematic.default_input_delay(), 0);
    assert_eq!(FrameRate::UltraFast.as_str(), "Ultra Fast");
    assert_eq!(FrameRate::Cinematic.as_str(), "Cinematic");
    assert_eq!(FrameRate::Fast.frame_nanos(), 16_666_666);
    assert_eq!(FrameRate::default(), FrameRate::Fast);
}

#[test]
fn resolution_dimensions() {
    assert_eq!(Resolution::Full.dimensions(), (1920, 1080));
    assert_eq!(Resolution::High.dimensions(), (960, 540));
    assert_eq!(Resolution::Retro.dimensions(), (640, 360));
    assert_eq!(Resolution::Compact.dimensions(), (480, 270));
    assert_eq!(Resolution::default(), Resolution::High);
}

#[test]
fn rom_from_code_takes_defaults() {
    let rom = Rom::from_code(&[0, 97, 115, 109]);
    assert_eq!(rom.code, vec![0, 97, 115, 109]);
    assert_eq!(rom.resolution, Resolution::High);
    assert_eq!(rom.frame_rate, FrameRate::Fast);
}

#[test]
fn config_fills_missing_settings() {
    let config = Config {
        resolution: None,
        frame_rate: Some(FrameRate::Retro),
        wasm_path: "game.wasm".to_string(),
        output_file: None,
    };
    let rom = config.to_rom(vec![1, 2, 3]);
    assert_eq!(rom.resolution, Resolution::High);
    assert_eq!(rom.frame_rate, FrameRate::Retro);
    assert_eq!(rom.code, vec![1, 2, 3]);
}

#[test]
fn fast_session_uses_sixty_fps_and_delay_two() {
    let rom = Rom::from_code(&[]);
    let s = session_settings(&rom, 2);
    assert_eq!(s.num_players, 2);
    assert_eq!(s.fps, 60);
    assert_eq!(s.input_delay, 2);
}

#[test]
fn clock_skips_while_synchronizing() {
    let mut clock = FrameClock::new(FrameRate::Retro);
    assert_eq!(clock.frame_nanos, 33_333_333);
    assert_eq!(clock.next_tick(false), TickAction::Wait);
    clock.add_elapsed(70_000_000);
    assert_eq!(clock.next_tick(true), TickAction::Skip);
    assert_eq!(clock.next_tick(false), TickAction::Advance);
    assert_eq!(clock.next_tick(false), TickAction::Wait);
    assert_eq!(clock.accumulator, 70_000_000 - 2 * 33_333_333);
    clock.add_elapsed(u64::MAX);
    assert_eq!(clock.accumulator, u64::MAX);
}
