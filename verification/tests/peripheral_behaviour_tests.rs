//! Tests of the exact behaviour of what stands around the machine: text,
//! errors, rendering, settings, keyboard and key maps.

use chip8::error::{AudioError, ConfigError, EmulatorError, GraphicsError, InputError};
use chip8::frontend::cli::{check_rom, parse_hex_color};
use chip8::frontend::config::{
    validate_graphics, validate_keyboard, ConfigProfiles, DebugConfig, EnvConfig,
};
use chip8::frontend::emulator::capture_frame;
use chip8::frontend::{EmulatorBehaviorConfig, SimpleEmulator};
use chip8::graphics::renderer::{draw_frame, Color, GraphicsConfig, PixelRenderer, SoftwareRenderer};
use chip8::graphics::GraphicsDisplay;
use chip8::hardware::audio::NullAudio;
use chip8::hardware::display::{Display, DisplayError, NullDisplay};
use chip8::hardware::input::{ChipKey, Input, NullInput, SoftwareInput};
use chip8::hardware::{Audio, Hardware, NullHardware};
use chip8::input::keyboard::{
    KeyState, KeyboardConfig, KeyboardEvent, KeyboardInput, LogicalKey, NamedKey, PhysicalKey,
};
use chip8::input::mapper::{
    create_mapper_from_config, mapper_named, AlternativeQwertyMapper, CustomMapper, KeyMapper,
    QwertyMapper, VirtualKey,
};
use chip8::input::{InputSystem, NullInputSystem};
use chip8::text::{decimal, push_decimal, push_digits, push_hex, reads};
use std::time::Instant;

#[test]
fn numbers_are_written_in_decimal_and_hexadecimal() {
    assert_eq!(decimal(0), "0");
    assert_eq!(decimal(7), "7");
    assert_eq!(decimal(10), "10");
    assert_eq!(decimal(3584), "3584");
    assert_eq!(decimal(u64::MAX), "18446744073709551615");
    let mut text = String::from("x=");
    push_decimal(&mut text, 42);
    push_hex(&mut text, 0);
    push_hex(&mut text, 0xF);
    push_hex(&mut text, 0x10);
    push_hex(&mut text, 0xABC);
    push_hex(&mut text, 0xFFFF);
    push_digits(&mut text, 5, 2);
    assert_eq!(text, "x=420x000x0f0x100xabc0xffff101");
    assert!(reads("qwerty", "qwerty"));
    assert!(!reads("qwerty", "QWERTY"));
}

#[test]
fn error_messages() {
    assert_eq!(
        EmulatorError::InvalidMemoryAccess { address: 0x5 }.to_string(),
        "Invalid memory access at address 0x05"
    );
    assert_eq!(
        EmulatorError::UnknownInstruction { opcode: 0 }.to_string(),
        "Unknown instruction 0x00"
    );
    assert_eq!(
        EmulatorError::RomTooLarge { size: 0, max_size: 10 }.to_string(),
        "ROM file too large: 0 bytes (max 10)"
    );
    assert_eq!(EmulatorError::RomEmpty.to_string(), "ROM file is empty");
    assert_eq!(EmulatorError::StackOverflow.to_string(), "Stack overflow");
    assert_eq!(EmulatorError::StackUnderflow.to_string(), "Stack underflow");
    assert_eq!(
        EmulatorError::InvalidRegister { index: 16 }.to_string(),
        "Invalid register index: 16"
    );
    assert_eq!(
        EmulatorError::from(AudioError::StreamError("lost".to_string())).to_string(),
        "Audio system error: Audio stream error: lost"
    );
    assert_eq!(
        EmulatorError::from(GraphicsError::InvalidBufferSize { expected: 2048, actual: 10 })
            .to_string(),
        "Graphics system error: Invalid buffer size: expected 2048, got 10"
    );
    assert_eq!(
        EmulatorError::from(InputError::InvalidKey { key: 200 }).to_string(),
        "Input system error: Invalid key code: 200"
    );
    assert_eq!(
        EmulatorError::from(ConfigError::MissingKey { key: "scale".to_string() }).to_string(),
        "Configuration error: Missing required configuration key: scale"
    );
    assert_eq!(
        ConfigError::InvalidValue { key: "a.b".to_string(), value: "0".to_string() }.to_string(),
        "Invalid configuration value for 'a.b': 0"
    );
    assert_eq!(AudioError::InitializationFailed.to_string(), "Failed to initialize audio device");
    assert_eq!(AudioError::UnsupportedFormat.to_string(), "Unsupported audio format");
    assert_eq!(AudioError::DeviceNotAvailable.to_string(), "Audio device not available");
    assert_eq!(
        GraphicsError::InitializationFailed.to_string(),
        "Failed to initialize graphics system"
    );
    assert_eq!(GraphicsError::RenderError("x".to_string()).to_string(), "Render error: x");
    assert_eq!(
        GraphicsError::InvalidCoordinates { x: 100, y: 200 }.to_string(),
        "Invalid display coordinates: (100, 200)"
    );
    assert_eq!(GraphicsError::InvalidSpriteData.to_string(), "Invalid sprite data");
    assert_eq!(
        GraphicsError::WindowCreationFailed("x".to_string()).to_string(),
        "Window creation failed: x"
    );
    assert_eq!(
        GraphicsError::EventLoopCreationFailed("x".to_string()).to_string(),
        "Event loop creation failed: x"
    );
    assert_eq!(
        GraphicsError::EventLoopRunFailed("x".to_string()).to_string(),
        "Event loop run failed: x"
    );
    assert_eq!(
        GraphicsError::PixelsInitializationFailed("x".to_string()).to_string(),
        "Pixels initialization failed: x"
    );
    assert_eq!(GraphicsError::ResizeFailed("x".to_string()).to_string(), "Window resize failed: x");
    assert_eq!(GraphicsError::RenderFailed("x".to_string()).to_string(), "Render failed: x");
    assert_eq!(GraphicsError::WindowClosed.to_string(), "Window closed");
    assert_eq!(InputError::MappingError("x".to_string()).to_string(), "Key mapping error: x");
    assert_eq!(InputError::DeviceNotAvailable.to_string(), "Input device not available");
    assert_eq!(
        DisplayError::InvalidCoordinates { x: 64, y: 0 }.to_string(),
        "Invalid pixel coordinates: (64, 0)"
    );
    assert_eq!(DisplayError::NotInitialized.to_string(), "Display not initialized");
    assert_eq!(DisplayError::RenderError("x".to_string()).to_string(), "Render error: x");
    assert_eq!(DisplayError::InvalidSpriteData.to_string(), "Invalid sprite data");
}

#[test]
fn renderer_scales_every_pixel_to_a_square() {
    let fg = Color::rgb(1, 2, 3);
    let bg = Color::new(9, 8, 7, 6);
    let config = GraphicsConfig::new()
        .with_scale_factor(2)
        .with_foreground_color(fg)
        .with_background_color(bg);
    let mut renderer = PixelRenderer::new(config).unwrap();
    assert_eq!(renderer.frame_buffer().len(), 128 * 64 * 4);
    assert!(renderer.frame_buffer().iter().all(|&byte| byte == 0));

    let mut display = vec![false; 2048];
    display[0] = true;
    display[65] = true;
    renderer.render(&display).unwrap();
    let frame = renderer.frame_buffer();
    for fy in 0..64usize {
        for fx in 0..128usize {
            let on = (fx / 2 == 0 && fy / 2 == 0) || (fx / 2 == 1 && fy / 2 == 1);
            let at = (fy * 128 + fx) * 4;
            let expected = if on { [1, 2, 3, 255] } else { [9, 8, 7, 6] };
            assert_eq!(&frame[at..at + 4], &expected, "({}, {})", fx, fy);
        }
    }

    let result = renderer.render(&display[..2047]);
    assert!(matches!(
        result,
        Err(GraphicsError::InvalidBufferSize { expected: 2048, actual: 2047 })
    ));
    assert_eq!(renderer.frame_buffer()[0], 1);
}

#[test]
fn renderer_with_scale_zero_has_an_empty_frame() {
    let mut renderer = PixelRenderer::new(GraphicsConfig::new().with_scale_factor(0)).unwrap();
    assert_eq!(renderer.frame_size(), (0, 0));
    renderer.render(&[true; 2048]).unwrap();
    assert!(renderer.frame_buffer().is_empty());
}

#[test]
fn renderer_copies_its_frame_to_the_front_of_a_buffer() {
    let mut renderer = PixelRenderer::new(GraphicsConfig::new().with_scale_factor(1)).unwrap();
    renderer.render(&[true; 2048]).unwrap();
    let mut short = vec![7u8; 8191];
    assert!(matches!(
        renderer.copy_to_frame(&mut short),
        Err(GraphicsError::InvalidBufferSize { expected: 8192, actual: 8191 })
    ));
    assert!(short.iter().all(|&byte| byte == 7));
    let mut long = vec![7u8; 8194];
    renderer.copy_to_frame(&mut long).unwrap();
    assert!(long[..8192].iter().all(|&byte| byte == 255));
    assert_eq!(&long[8192..], &[7, 7]);
}

#[test]
fn renderer_resizes_only_when_the_scale_changes() {
    let mut renderer = PixelRenderer::new(GraphicsConfig::new().with_scale_factor(1)).unwrap();
    renderer.render(&[true; 2048]).unwrap();
    renderer
        .set_config(GraphicsConfig::classic_amber().with_scale_factor(1))
        .unwrap();
    assert_eq!(renderer.config().foreground_color, Color::amber());
    assert_eq!(renderer.frame_buffer()[0], 255);
    renderer.set_config(GraphicsConfig::new().with_scale_factor(3)).unwrap();
    assert_eq!(renderer.frame_size(), (192, 96));
    assert_eq!(renderer.frame_buffer().len(), 192 * 96 * 4);
    assert!(renderer.frame_buffer().iter().all(|&byte| byte == 0));
    let mut software = SoftwareRenderer::new(GraphicsConfig::high_contrast()).unwrap();
    software.set_config(GraphicsConfig::new().with_scale_factor(1)).unwrap();
    assert_eq!(software.frame_size(), (64, 32));
    assert_eq!(software.render(&[false; 2048]).unwrap()[..4], [0, 0, 0, 255]);
}

#[test]
fn colours_and_presets() {
    assert_eq!(Color::gray(9), Color::new(9, 9, 9, 255));
    assert_eq!(Color::amber().to_rgba(), [255, 191, 0, 255]);
    assert_eq!(Color::green().to_rgba(), [0, 255, 0, 255]);
    assert_eq!(Color::white().to_rgba(), [255, 255, 255, 255]);
    assert_eq!(Color::black().to_rgba(), [0, 0, 0, 255]);
    let config = GraphicsConfig::classic_green()
        .with_smooth_scaling(true)
        .with_maintain_aspect_ratio(false);
    assert_eq!(config.foreground_color, Color::green());
    assert_eq!(config.background_color, Color::black());
    assert_eq!(config.scale_factor, 10);
    assert!(config.smooth_scaling);
    assert!(!config.maintain_aspect_ratio);
    assert_eq!(GraphicsConfig::high_contrast().foreground_color, Color::white());
}

#[test]
fn frame_is_painted_pixel_by_pixel() {
    let frame = [true, false, true];
    let mut buffer = [0u8; 14];
    buffer[12] = 77;
    buffer[13] = 78;
    draw_frame(&frame, &mut buffer, Color::new(1, 2, 3, 4), Color::new(5, 6, 7, 8));
    assert_eq!(buffer, [1, 2, 3, 4, 5, 6, 7, 8, 1, 2, 3, 4, 77, 78]);
}

#[test]
fn graphics_display_renders_what_it_shows() {
    let mut display =
        GraphicsDisplay::with_config(GraphicsConfig::new().with_scale_factor(1)).unwrap();
    display.draw_sprite(62, 0, &[0xC0]).unwrap();
    let frame = display.get_pixel_data().unwrap().to_vec();
    assert_eq!(frame.len(), 64 * 32 * 4);
    assert_eq!(&frame[62 * 4..64 * 4], &[255; 8]);
    assert_eq!(&frame[0..4], &[0, 0, 0, 255]);
    assert_eq!(display.frame_size(), (64, 32));
    assert!(display.is_dirty());
    display.render().unwrap();
    assert!(!display.is_dirty());
    assert!(display.draw_sprite(62, 0, &[0xC0]).unwrap());
    assert!(display.get_buffer().iter().all(|&on| !on));
    let fresh = GraphicsDisplay::default();
    assert_eq!(fresh.graphics_config().scale_factor, 10);
}

#[test]
fn null_peripherals_work_like_the_software_ones() {
    let mut display = NullDisplay::new();
    display.set_pixel(5, 5, true).unwrap();
    assert!(display.draw_sprite(5, 5, &[0x80]).unwrap());
    assert!(!display.get_pixel(5, 5).unwrap());
    display.mark_clean();
    assert!(!display.is_dirty());

    let mut audio = NullAudio::new();
    audio.play_beep().unwrap();
    audio.play_beep().unwrap();
    assert!(audio.is_playing());
    audio.stop_beep().unwrap();
    audio.stop_beep().unwrap();
    assert!(!audio.is_playing());

    let mut hardware = NullHardware::new();
    hardware.display().set_pixel(1, 1, true).unwrap();
    hardware.input().press_key(ChipKey::Key9);
    hardware.audio().play_beep().unwrap();
    hardware.update().unwrap();
    assert!(!hardware.display().is_dirty());
    assert!(hardware.display().get_pixel(1, 1).unwrap());
    assert!(hardware.input().is_key_pressed(ChipKey::Key9));
    assert!(hardware.audio().is_playing());
}

#[test]
fn keypad_lists_keys_in_the_order_of_their_numbers() {
    let mut input = SoftwareInput::new();
    input.press_key(ChipKey::KeyF);
    input.press_key(ChipKey::Key3);
    input.press_key(ChipKey::KeyA);
    input.press_key(ChipKey::Key3);
    assert_eq!(input.get_pressed_keys(), vec![ChipKey::Key3, ChipKey::KeyA, ChipKey::KeyF]);
    assert_eq!(
        input.get_keys_pressed_this_frame(),
        vec![ChipKey::Key3, ChipKey::KeyA, ChipKey::KeyF]
    );
    assert_eq!(input.get_first_pressed_key(), Some(ChipKey::Key3));
    assert_eq!(input.wait_for_key(), Some(ChipKey::Key3));
    input.update().unwrap();
    input.release_key(ChipKey::Key0);
    assert!(input.get_keys_released_this_frame().is_empty());
    input.release_all_keys();
    assert_eq!(
        input.get_keys_released_this_frame(),
        vec![ChipKey::Key3, ChipKey::KeyA, ChipKey::KeyF]
    );
    assert!(input.get_keys_pressed_this_frame().is_empty());
    assert!(!input.any_key_pressed());
    let mut null = NullInput::new();
    null.press_key(ChipKey::KeyB);
    assert_eq!(null.get_pressed_keys(), vec![ChipKey::KeyB]);
    assert_eq!(null.wait_for_key(), Some(ChipKey::KeyB));
    for (number, key) in ChipKey::all_keys().iter().enumerate() {
        assert_eq!(key.to_u8() as usize, number);
        assert_eq!(ChipKey::from_u8(number as u8), Some(*key));
        assert_eq!(key.to_string(), format!("{:X}", number));
    }
    assert_eq!(ChipKey::from_u8(255), None);
}

fn event(physical: PhysicalKey, logical: LogicalKey, state: KeyState, repeat: bool) -> KeyboardEvent {
    KeyboardEvent {
        physical_key: physical,
        logical_key: logical,
        state,
        is_repeat: repeat,
        timestamp: Instant::now(),
    }
}

#[test]
fn keyboard_takes_events_as_its_settings_say() {
    let mut keyboard = KeyboardInput::new(KeyboardConfig::new()).unwrap();
    let repeat = event(PhysicalKey::KeyA, LogicalKey::Character('a'), KeyState::Pressed, true);
    keyboard.process_event(repeat.clone()).unwrap();
    assert!(!keyboard.is_physical_key_pressed(PhysicalKey::KeyA));
    assert!(keyboard.get_events().is_empty());

    let mut repeating =
        KeyboardInput::new(KeyboardConfig::desktop()).unwrap();
    repeating.process_event(repeat.clone()).unwrap();
    repeating.process_event(repeat.clone()).unwrap();
    assert_eq!(repeating.get_pressed_physical_keys(), vec![PhysicalKey::KeyA]);
    assert_eq!(repeating.get_events().len(), 2);

    let mut deaf = KeyboardInput::new(KeyboardConfig::new().with_capture_enabled(false)).unwrap();
    deaf.simulate_key_event(PhysicalKey::KeyA, KeyState::Pressed);
    assert!(deaf.get_pressed_physical_keys().is_empty());
    assert!(deaf.get_events().is_empty());

    keyboard.simulate_key_event(PhysicalKey::Unknown(7), KeyState::Pressed);
    keyboard.simulate_key_event(PhysicalKey::Unknown(8), KeyState::Released);
    keyboard.simulate_key_event(PhysicalKey::LeftShift, KeyState::Pressed);
    assert!(keyboard.is_physical_key_pressed(PhysicalKey::Unknown(7)));
    assert!(!keyboard.is_physical_key_pressed(PhysicalKey::Unknown(8)));
    let events = keyboard.get_events();
    assert_eq!(events.len(), 3);
    assert_eq!(events[0].logical_key, LogicalKey::Unidentified);
    assert_eq!(events[2].logical_key, LogicalKey::Named(NamedKey::Shift));
    assert!(!events[2].is_repeat);
    keyboard.update().unwrap();
    assert!(keyboard.is_physical_key_pressed(PhysicalKey::LeftShift));
    assert_eq!(
        KeyboardInput::physical_to_logical(PhysicalKey::RightCtrl),
        LogicalKey::Named(NamedKey::Control)
    );
    assert_eq!(
        KeyboardInput::physical_to_logical(PhysicalKey::Key0),
        LogicalKey::Character('0')
    );
}

#[test]
fn key_maps_answer_for_every_kind_of_key() {
    let qwerty = QwertyMapper::new();
    let alternative = AlternativeQwertyMapper::new();
    assert_eq!(qwerty.map_virtual_keycode(VirtualKey::Key4), Some(ChipKey::KeyC));
    assert_eq!(qwerty.map_virtual_keycode(VirtualKey::V), Some(ChipKey::KeyF));
    assert_eq!(qwerty.map_virtual_keycode(VirtualKey::Key5), None);
    assert_eq!(qwerty.map_virtual_keycode(VirtualKey::Other(3)), None);
    assert_eq!(qwerty.map_physical_key(PhysicalKey::Key5), None);
    assert_eq!(qwerty.map_logical_key(&LogicalKey::Character('R')), Some(ChipKey::KeyD));
    assert_eq!(qwerty.map_logical_key(&LogicalKey::Character('5')), None);
    assert_eq!(qwerty.map_logical_key(&LogicalKey::Named(NamedKey::Space)), None);
    assert_eq!(alternative.map_logical_key(&LogicalKey::Character('r')), Some(ChipKey::KeyD));
    assert_eq!(alternative.map_logical_key(&LogicalKey::Character('R')), None);
    assert_eq!(alternative.name(), "Alternative QWERTY");
    assert_eq!(alternative.description(), "Alternative QWERTY keyboard layout");
    assert_eq!(alternative.get_physical_mappings(), qwerty.get_physical_mappings());
    assert!(qwerty.description().starts_with("Standard QWERTY keyboard layout:\n1 2 3 4 -> 1 2 3 C\n"));

    // The logical key decides; the physical key is asked only where it
    // says nothing.
    let both = event(PhysicalKey::Key1, LogicalKey::Character('q'), KeyState::Pressed, false);
    assert_eq!(qwerty.map_key_event(&both), Some(ChipKey::Key4));
    let upper = event(PhysicalKey::KeyW, LogicalKey::Character('Q'), KeyState::Pressed, false);
    assert_eq!(qwerty.map_key_event(&upper), Some(ChipKey::Key4));
    assert_eq!(alternative.map_key_event(&upper), Some(ChipKey::Key5));
    let neither = event(PhysicalKey::Space, LogicalKey::Unidentified, KeyState::Pressed, false);
    assert_eq!(qwerty.map_key_event(&neither), None);
}

#[test]
fn custom_key_map_is_filled_by_its_user() {
    let mut mapper = CustomMapper::new("mine".to_string(), "my keys".to_string());
    mapper.add_physical_mapping(PhysicalKey::Space, ChipKey::Key5);
    mapper.add_physical_mapping(PhysicalKey::Enter, ChipKey::Key6);
    mapper.add_physical_mapping(PhysicalKey::Space, ChipKey::Key7);
    mapper.add_logical_mapping(LogicalKey::Named(NamedKey::Tab), ChipKey::Key1);
    mapper.add_virtual_keycode_mapping(VirtualKey::Other(99), ChipKey::Key2);
    assert_eq!(mapper.map_physical_key(PhysicalKey::Space), Some(ChipKey::Key7));
    let mut pairs = mapper.get_physical_mappings();
    pairs.sort_by_key(|(_, chip)| chip.to_u8());
    assert_eq!(
        pairs,
        vec![(PhysicalKey::Enter, ChipKey::Key6), (PhysicalKey::Space, ChipKey::Key7)]
    );
    assert_eq!(mapper.map_logical_key(&LogicalKey::Named(NamedKey::Tab)), Some(ChipKey::Key1));
    assert_eq!(mapper.map_virtual_keycode(VirtualKey::Other(99)), Some(ChipKey::Key2));
    assert_eq!(mapper.map_virtual_keycode(VirtualKey::Other(98)), None);
    mapper.remove_logical_mapping(&LogicalKey::Named(NamedKey::Tab));
    mapper.remove_virtual_keycode_mapping(VirtualKey::Other(99));
    mapper.remove_physical_mapping(PhysicalKey::Escape);
    assert_eq!(mapper.map_logical_key(&LogicalKey::Named(NamedKey::Tab)), None);
    assert_eq!(mapper.map_virtual_keycode(VirtualKey::Other(99)), None);
    assert_eq!(mapper.get_physical_mappings().len(), 2);

    mapper.load_from_qwerty();
    let qwerty = QwertyMapper::new();
    assert_eq!(mapper.map_physical_key(PhysicalKey::Space), None);
    let mut loaded = mapper.get_physical_mappings();
    let mut expected = qwerty.get_physical_mappings();
    loaded.sort_by_key(|(_, chip)| chip.to_u8());
    expected.sort_by_key(|(_, chip)| chip.to_u8());
    assert_eq!(loaded, expected);
    for c in ['1', '4', 'q', 'Q', 'v', 'V', '5', 'g', '+'] {
        let key = LogicalKey::Character(c);
        assert_eq!(mapper.map_logical_key(&key), qwerty.map_logical_key(&key));
    }
    assert_eq!(mapper.map_virtual_keycode(VirtualKey::X), Some(ChipKey::Key0));
    assert_eq!((mapper.name(), mapper.description()), ("mine", "my keys"));
    mapper.clear_mappings();
    assert!(mapper.get_physical_mappings().is_empty());
    assert_eq!(mapper.map_logical_key(&LogicalKey::Character('q')), None);
}

#[test]
fn key_maps_are_found_by_name_in_any_case() {
    assert_eq!(create_mapper_from_config("QWERTY").unwrap().name(), "QWERTY");
    assert_eq!(create_mapper_from_config("Standard").unwrap().name(), "QWERTY");
    assert_eq!(create_mapper_from_config("ALT").unwrap().name(), "Alternative QWERTY");
    assert_eq!(
        create_mapper_from_config("Dvorak").err().unwrap(),
        "Unknown mapper configuration: Dvorak"
    );
    assert!(mapper_named("QWERTY", "QWERTY").is_err());
    assert_eq!(mapper_named("alt", "x").unwrap().name(), "Alternative QWERTY");

    // The QWERTY map takes letters in either case, the alternative one
    // only small letters; by place both answer alike.
    let qwerty = create_mapper_from_config("qwerty").unwrap();
    let alternative = create_mapper_from_config("Alternative").unwrap();
    assert_eq!(qwerty.map_logical_key(&LogicalKey::Character('Q')), Some(ChipKey::Key4));
    assert_eq!(qwerty.map_logical_key(&LogicalKey::Character('q')), Some(ChipKey::Key4));
    assert_eq!(alternative.map_logical_key(&LogicalKey::Character('Q')), None);
    assert_eq!(alternative.map_logical_key(&LogicalKey::Character('q')), Some(ChipKey::Key4));
    assert_eq!(qwerty.map_physical_key(PhysicalKey::KeyV), Some(ChipKey::KeyF));
    assert_eq!(alternative.map_physical_key(PhysicalKey::KeyV), Some(ChipKey::KeyF));
    assert_eq!(alternative.map_virtual_keycode(VirtualKey::X), Some(ChipKey::Key0));
    assert_eq!(
        ConfigProfiles::profile_description("GAMING"),
        Some("Optimized for gaming with high performance settings")
    );
    assert_eq!(
        ConfigProfiles::profile_description("default"),
        Some("Default configuration with balanced settings")
    );
    assert_eq!(
        ConfigProfiles::profile_description("Development"),
        Some("Development-friendly with debugging enabled")
    );
    assert_eq!(
        ConfigProfiles::profile_description("retro"),
        Some("Classic retro styling with amber colors")
    );
    assert_eq!(ConfigProfiles::profile_description("dev"), None);
    assert_eq!(ConfigProfiles::description_of_lowered("GAMING"), None);
    assert_eq!(
        ConfigProfiles::available_profiles(),
        vec!["default", "gaming", "development", "retro"]
    );
}

#[test]
fn input_system_follows_keyboard_events() {
    let mut system = InputSystem::new().unwrap();
    let down = event(PhysicalKey::KeyQ, LogicalKey::Unidentified, KeyState::Pressed, false);
    let up = event(PhysicalKey::KeyQ, LogicalKey::Unidentified, KeyState::Released, false);
    let other = event(PhysicalKey::Space, LogicalKey::Unidentified, KeyState::Pressed, false);
    system.process_keyboard_event(&other).unwrap();
    assert!(!system.any_key_pressed());
    system.process_keyboard_event(&down).unwrap();
    assert!(system.is_key_pressed(ChipKey::Key4));
    assert!(system.was_key_just_pressed(ChipKey::Key4));
    system.update().unwrap();
    system.process_keyboard_event(&down).unwrap();
    assert!(!system.was_key_just_pressed(ChipKey::Key4));
    system.process_keyboard_event(&up).unwrap();
    assert!(!system.is_key_pressed(ChipKey::Key4));
    assert_eq!(system.get_keys_released_this_frame(), vec![ChipKey::Key4]);

    system.set_capture_enabled(false);
    system.process_keyboard_event(&down).unwrap();
    assert!(!system.any_key_pressed());
    system.set_capture_enabled(true);

    let mut custom = CustomMapper::new("one".to_string(), String::new());
    custom.add_physical_mapping(PhysicalKey::Space, ChipKey::KeyE);
    system.set_mapper(Box::new(custom));
    system.process_keyboard_event(&down).unwrap();
    system.process_keyboard_event(&other).unwrap();
    assert_eq!(system.get_pressed_keys(), vec![ChipKey::KeyE]);
    assert_eq!(system.wait_for_key(), Some(ChipKey::KeyE));
    assert_eq!(system.mapper().name(), "one");
    assert_eq!(system.keyboard_config().polling_rate, 60);

    let gaming =
        InputSystem::with_config(KeyboardConfig::gaming(), Box::new(AlternativeQwertyMapper::new()))
            .unwrap();
    assert_eq!(gaming.keyboard_config().polling_rate, 120);
    assert_eq!(gaming.mapper().name(), "Alternative QWERTY");
    let mut null = NullInputSystem::default();
    null.press_key(ChipKey::Key1);
    assert_eq!(null.get_pressed_keys(), vec![ChipKey::Key1]);
}

#[test]
fn settings_are_checked() {
    assert!(validate_graphics(&GraphicsConfig::new().with_scale_factor(1)).is_ok());
    assert!(validate_graphics(&GraphicsConfig::new().with_scale_factor(20)).is_ok());
    for scale in [0u32, 21, 4_000_000_000] {
        let error = validate_graphics(&GraphicsConfig::new().with_scale_factor(scale)).unwrap_err();
        assert!(matches!(
            error,
            ConfigError::InvalidValue { ref key, ref value }
                if key == "graphics.scale_factor" && *value == scale.to_string()
        ));
    }
    assert!(validate_keyboard(&KeyboardConfig::new().with_polling_rate(1000)).is_ok());
    assert!(validate_keyboard(&KeyboardConfig::new().with_polling_rate(1)).is_ok());
    for rate in [0u32, 1001] {
        let error = validate_keyboard(&KeyboardConfig::new().with_polling_rate(rate)).unwrap_err();
        assert!(matches!(
            error,
            ConfigError::InvalidValue { ref key, ref value }
                if key == "keyboard.polling_rate" && *value == rate.to_string()
        ));
    }
    let debug = DebugConfig::default();
    assert!(!debug.enabled && !debug.break_on_error && !debug.log_instructions);
    assert_eq!(EmulatorBehaviorConfig::classic().cpu_speed, 500);
    assert!(EmulatorBehaviorConfig::classic().memory_wraparound);
    assert!(!EmulatorBehaviorConfig::classic().strict_bounds);
    assert_eq!(EmulatorBehaviorConfig::modern().cpu_speed, 700);
}

#[test]
fn scale_override_reads_a_number_from_1_to_20() {
    assert_eq!(EnvConfig::scale_override("10"), Some(10));
    assert_eq!(EnvConfig::scale_override("1"), Some(1));
    assert_eq!(EnvConfig::scale_override("20"), Some(20));
    assert_eq!(EnvConfig::scale_override("+5"), Some(5));
    assert_eq!(EnvConfig::scale_override("007"), Some(7));
    for refused in ["", "+", "0", "21", "-3", " 3", "3 ", "1e1", "abc", "²", "99999999999999999999"] {
        assert_eq!(EnvConfig::scale_override(refused), None, "{:?}", refused);
    }
    let vars = EnvConfig::available_env_vars();
    assert_eq!(vars.len(), 5);
    assert_eq!(vars[4], ("CHIP8_VERBOSE", "Enable verbose logging (any value)"));
}

#[test]
fn colours_are_read_from_six_hexadecimal_digits() {
    assert_eq!(parse_hex_color("12aBcD").unwrap(), Color::rgb(0x12, 0xAB, 0xCD));
    assert_eq!(parse_hex_color("###000001").unwrap(), Color::rgb(0, 0, 1));
    assert_eq!(parse_hex_color("+F+0+a").unwrap(), Color::rgb(15, 0, 10));
    for refused in ["", "#", "12345", "1234567", "12345G", "1234 5", "F+0000", "-10000", "é1234", "aé123"] {
        let error = parse_hex_color(refused).unwrap_err();
        assert!(
            matches!(
                error,
                EmulatorError::ConfigError(ConfigError::InvalidValue { ref key, ref value })
                    if key == "color" && value == refused.trim_start_matches('#')
            ),
            "{:?}",
            refused
        );
    }
}

#[test]
fn program_images_are_looked_at() {
    let empty = check_rom(&[]);
    assert!(empty.empty && !empty.too_large && !empty.has_instructions && !empty.passed());
    let zeros = check_rom(&[0; 10]);
    assert!(!zeros.empty && !zeros.has_instructions && zeros.passed());
    let odd = check_rom(&[0, 0, 1]);
    assert!(!odd.has_instructions);
    let low = check_rom(&[0, 0, 0, 1]);
    assert!(low.has_instructions);
    let high = check_rom(&[1]);
    assert!(!high.has_instructions);
    let large = check_rom(&[1; 3585]);
    assert!(large.too_large && large.has_instructions && !large.passed());
    assert!(!check_rom(&[1; 3584]).too_large);
}

#[test]
fn frame_is_captured_after_a_run() {
    // Draws glyph 0 at (0, 0) and loops.
    let rom = [0xA0, 0x50, 0xD0, 0x05, 0x12, 0x04];
    let shot = capture_frame(&rom, 10, 1, "#FF0000", "0000FF").unwrap();
    assert_eq!((shot.width, shot.height), (64, 32));
    assert_eq!(shot.frame.len(), 64 * 32 * 4);
    assert_eq!(&shot.frame[0..4], &[255, 0, 0, 255]);
    assert_eq!(&shot.frame[4 * 4..5 * 4], &[0, 0, 255, 255]);
    assert_eq!(&shot.frame[(64 + 1) * 4..(64 + 2) * 4], &[0, 0, 255, 255]);

    assert!(matches!(
        capture_frame(&rom, 10, 1, "red", "bad"),
        Err(EmulatorError::ConfigError(ConfigError::InvalidValue { ref value, .. })) if value == "red"
    ));
    assert!(matches!(
        capture_frame(&rom, 10, 1, "000000", "bad"),
        Err(EmulatorError::ConfigError(ConfigError::InvalidValue { ref value, .. })) if value == "bad"
    ));
    assert!(matches!(
        capture_frame(&[], 10, 1, "000000", "FFFFFF"),
        Err(EmulatorError::RomEmpty)
    ));
    assert!(matches!(
        capture_frame(&[0xFF, 0xFF], 10, 1, "000000", "FFFFFF"),
        Err(EmulatorError::UnknownInstruction { opcode: 0xFFFF })
    ));
    assert!(capture_frame(&[0xFF, 0xFF], 0, 0, "000000", "FFFFFF").unwrap().frame.is_empty());
}

#[test]
fn simple_emulator_runs_and_stops() {
    let mut emulator = SimpleEmulator::new_with_config(&EmulatorBehaviorConfig::classic());
    assert_eq!(emulator.target_cps(), 500);
    assert!(emulator.cpu().get_memory().get_wraparound());
    emulator.configure(&EmulatorBehaviorConfig::modern());
    assert_eq!(emulator.target_cps(), 700);
    assert!(!emulator.cpu().get_memory().get_wraparound());
    emulator.load_rom(&[0x60, 0x01, 0xFF, 0xFF]).unwrap();
    emulator.run_cycles(0).unwrap();
    assert!(!emulator.is_running());
    assert!(matches!(
        emulator.run_cycles(5),
        Err(EmulatorError::UnknownInstruction { opcode: 0xFFFF })
    ));
    assert!(emulator.is_running());
    assert_eq!(emulator.cpu().get_state().instruction_count, 1);
    emulator.stop();
    assert!(!emulator.is_running());
    emulator.cpu_mut().reset();
    assert_eq!(emulator.cpu().get_state().pc, 0x200);
    assert!(emulator.get_display_buffer().is_empty());
}

#[test]
fn input_system_hands_out_the_key_map_that_it_was_given() {
    let system = InputSystem::new().unwrap();
    let held = system.mapper();
    assert_eq!(held.name(), "QWERTY");
    assert!(held.description().starts_with("Standard QWERTY keyboard layout:"));
    assert_eq!(held.map_logical_key(&LogicalKey::Character('Q')), Some(ChipKey::Key4));
    assert_eq!(held.map_physical_key(PhysicalKey::KeyV), Some(ChipKey::KeyF));
    assert_eq!(held.map_virtual_keycode(VirtualKey::X), Some(ChipKey::Key0));
    assert_eq!(held.get_physical_mappings().len(), 16);

    let mut system =
        InputSystem::with_config(KeyboardConfig::default(), Box::new(AlternativeQwertyMapper::new()))
            .unwrap();
    assert_eq!(system.mapper().name(), "Alternative QWERTY");
    assert_eq!(system.mapper().description(), "Alternative QWERTY keyboard layout");
    assert_eq!(system.mapper().map_logical_key(&LogicalKey::Character('Q')), None);
    assert_eq!(system.mapper().map_logical_key(&LogicalKey::Character('q')), Some(ChipKey::Key4));

    let mut custom = CustomMapper::new("mine".to_string(), "my keys".to_string());
    custom.add_physical_mapping(PhysicalKey::Space, ChipKey::KeyE);
    custom.add_virtual_keycode_mapping(VirtualKey::P, ChipKey::Key1);
    system.set_mapper(Box::new(custom));
    system.set_capture_enabled(false);
    let held = system.mapper();
    assert_eq!((held.name(), held.description()), ("mine", "my keys"));
    assert_eq!(held.map_physical_key(PhysicalKey::Space), Some(ChipKey::KeyE));
    assert_eq!(held.map_physical_key(PhysicalKey::KeyV), None);
    assert_eq!(held.map_virtual_keycode(VirtualKey::P), Some(ChipKey::Key1));
    assert_eq!(held.map_logical_key(&LogicalKey::Character('q')), None);
    assert_eq!(held.get_physical_mappings(), vec![(PhysicalKey::Space, ChipKey::KeyE)]);
    let event = KeyboardEvent {
        physical_key: PhysicalKey::Space,
        logical_key: LogicalKey::Named(NamedKey::Space),
        state: KeyState::Pressed,
        is_repeat: false,
        timestamp: Instant::now(),
    };
    assert_eq!(held.map_key_event(&event), Some(ChipKey::KeyE));
}
