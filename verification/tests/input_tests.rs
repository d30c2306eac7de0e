//! Tests of the keypad.

use chip8::hardware::input::{ChipKey, Input, NullInput, QwertyKeyMap, SoftwareInput};

#[test]
fn test_chip_key_conversion() {
    // Test from_u8
    assert_eq!(ChipKey::from_u8(0x0), Some(ChipKey::Key0));
    assert_eq!(ChipKey::from_u8(0xF), Some(ChipKey::KeyF));
    assert_eq!(ChipKey::from_u8(0x10), None);

    // Test to_u8
    assert_eq!(ChipKey::Key0.to_u8(), 0x0);
    assert_eq!(ChipKey::KeyF.to_u8(), 0xF);
}

#[test]
fn test_chip_key_display() {
    assert_eq!(ChipKey::Key0.to_string(), "0");
    assert_eq!(ChipKey::KeyA.to_string(), "A");
    assert_eq!(ChipKey::KeyF.to_string(), "F");
}

#[test]
fn test_chip_key_all_keys() {
    let all_keys = ChipKey::all_keys();
    assert_eq!(all_keys.len(), 16);

    // Verify all keys are unique
    let mut values = all_keys.iter().map(|k| k.to_u8()).collect::<Vec<_>>();
    values.sort();
    assert_eq!(values, (0..16).collect::<Vec<_>>());
}

#[test]
fn test_software_input_creation() {
    let input = SoftwareInput::new();

    assert!(!input.any_key_pressed());
    assert_eq!(input.get_pressed_keys().len(), 0);
    assert_eq!(input.wait_for_key(), None);
}

#[test]
fn test_software_input_key_operations() {
    let mut input = SoftwareInput::new();

    // Test pressing keys
    input.press_key(ChipKey::Key1);
    input.press_key(ChipKey::Key5);

    assert!(input.is_key_pressed(ChipKey::Key1));
    assert!(input.is_key_pressed(ChipKey::Key5));
    assert!(!input.is_key_pressed(ChipKey::Key0));
    assert!(input.any_key_pressed());

    let pressed = input.get_pressed_keys();
    assert_eq!(pressed.len(), 2);
    assert!(pressed.contains(&ChipKey::Key1));
    assert!(pressed.contains(&ChipKey::Key5));

    // Test releasing keys
    input.release_key(ChipKey::Key1);
    assert!(!input.is_key_pressed(ChipKey::Key1));
    assert!(input.is_key_pressed(ChipKey::Key5));

    // Test release all
    input.release_all_keys();
    assert!(!input.any_key_pressed());
}

#[test]
fn test_software_input_frame_events() {
    let mut input = SoftwareInput::new();

    // Press a key
    input.press_key(ChipKey::Key2);
    assert!(input.was_key_just_pressed(ChipKey::Key2));
    assert!(!input.was_key_just_released(ChipKey::Key2));

    // Update frame
    input.update().unwrap();
    assert!(!input.was_key_just_pressed(ChipKey::Key2));
    assert!(!input.was_key_just_released(ChipKey::Key2));

    // Release the key
    input.release_key(ChipKey::Key2);
    assert!(!input.was_key_just_pressed(ChipKey::Key2));
    assert!(input.was_key_just_released(ChipKey::Key2));

    // Update frame
    input.update().unwrap();
    assert!(!input.was_key_just_pressed(ChipKey::Key2));
    assert!(!input.was_key_just_released(ChipKey::Key2));
}

#[test]
fn test_software_input_wait_for_key() {
    let mut input = SoftwareInput::new();

    assert_eq!(input.wait_for_key(), None);

    input.press_key(ChipKey::Key7);
    assert_eq!(input.wait_for_key(), Some(ChipKey::Key7));
    assert_eq!(input.get_first_pressed_key(), Some(ChipKey::Key7));
}

#[test]
fn test_null_input() {
    let mut input = NullInput::new();

    assert!(!input.is_key_pressed(ChipKey::Key0));

    input.press_key(ChipKey::Key3);
    assert!(input.is_key_pressed(ChipKey::Key3));

    input.release_key(ChipKey::Key3);
    assert!(!input.is_key_pressed(ChipKey::Key3));

    input.update().unwrap();
}

#[test]
fn test_qwerty_key_mapping() {
    // Test char to chip key
    assert_eq!(QwertyKeyMap::char_to_chip_key('1'), Some(ChipKey::Key1));
    assert_eq!(QwertyKeyMap::char_to_chip_key('Q'), Some(ChipKey::Key4));
    assert_eq!(QwertyKeyMap::char_to_chip_key('q'), Some(ChipKey::Key4)); // Case insensitive
    assert_eq!(QwertyKeyMap::char_to_chip_key('X'), Some(ChipKey::Key0));
    assert_eq!(QwertyKeyMap::char_to_chip_key('V'), Some(ChipKey::KeyF));
    assert_eq!(QwertyKeyMap::char_to_chip_key('Y'), None); // Invalid key

    // Test chip key to char
    assert_eq!(QwertyKeyMap::chip_key_to_char(ChipKey::Key1), '1');
    assert_eq!(QwertyKeyMap::chip_key_to_char(ChipKey::Key4), 'Q');
    assert_eq!(QwertyKeyMap::chip_key_to_char(ChipKey::Key0), 'X');
    assert_eq!(QwertyKeyMap::chip_key_to_char(ChipKey::KeyF), 'V');
}

#[test]
fn test_qwerty_mapping_completeness() {
    let mappings = QwertyKeyMap::get_all_mappings();
    assert_eq!(mappings.len(), 16);

    // Verify all chip keys are covered
    let mut chip_keys: Vec<_> = mappings.iter().map(|(key, _)| *key).collect();
    chip_keys.sort_by_key(|k| k.to_u8());

    let expected_keys = ChipKey::all_keys();
    assert_eq!(chip_keys, expected_keys);

    // Verify bidirectional mapping
    for (chip_key, qwerty_char) in mappings {
        assert_eq!(QwertyKeyMap::chip_key_to_char(chip_key), qwerty_char);
        assert_eq!(QwertyKeyMap::char_to_chip_key(qwerty_char), Some(chip_key));
    }
}
