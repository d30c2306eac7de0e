//! Tests of the input system.

use chip8::hardware::{ChipKey, Input};
use chip8::input::{InputSystem, NullInputSystem};

#[test]
fn test_input_system_creation() {
    let system = InputSystem::new();

    // It's okay if this fails in headless environments
    if let Ok(input) = system {
        assert!(!input.any_key_pressed());
        assert!(input.is_capture_enabled());
    }
}

#[test]
fn test_input_system_default() {
    let system = InputSystem::default();
    assert!(!system.any_key_pressed());
    assert!(system.is_capture_enabled());
}

#[test]
fn test_input_system_simulation() {
    let mut system = InputSystem::default();

    assert!(!system.is_key_pressed(ChipKey::Key1));

    system.simulate_key_press(ChipKey::Key1);
    assert!(system.is_key_pressed(ChipKey::Key1));
    assert!(system.was_key_just_pressed(ChipKey::Key1));

    system.simulate_key_release(ChipKey::Key1);
    assert!(!system.is_key_pressed(ChipKey::Key1));
    assert!(system.was_key_just_released(ChipKey::Key1));
}

#[test]
fn test_input_system_frame_events() {
    let mut system = InputSystem::default();

    system.simulate_key_press(ChipKey::Key2);
    system.simulate_key_press(ChipKey::Key3);

    let pressed = system.get_keys_pressed_this_frame();
    assert_eq!(pressed.len(), 2);
    assert!(pressed.contains(&ChipKey::Key2));
    assert!(pressed.contains(&ChipKey::Key3));

    // Update should clear frame events
    system.update().unwrap();
    assert!(system.get_keys_pressed_this_frame().is_empty());
}

#[test]
fn test_input_system_capture() {
    let mut system = InputSystem::default();

    system.set_capture_enabled(false);
    assert!(!system.is_capture_enabled());

    system.set_capture_enabled(true);
    assert!(system.is_capture_enabled());
}

#[test]
fn test_null_input_system() {
    let mut system = NullInputSystem::new();

    assert!(!system.is_key_pressed(ChipKey::Key0));

    system.press_key(ChipKey::Key0);
    assert!(system.is_key_pressed(ChipKey::Key0));

    system.release_key(ChipKey::Key0);
    assert!(!system.is_key_pressed(ChipKey::Key0));

    system.update().unwrap();
}
