//! Tests of the simple emulator.

use chip8::frontend::SimpleEmulator;

#[test]
fn test_simple_emulator_creation() {
    let emulator = SimpleEmulator::new();
    assert_eq!(emulator.target_cps(), 700);
}

#[test]
fn test_simple_emulator_speed_settings() {
    let mut emulator = SimpleEmulator::new();
    emulator.set_target_cps(1000);
    assert_eq!(emulator.target_cps(), 1000);
}

#[test]
fn test_simple_emulator_running_state() {
    let mut emulator = SimpleEmulator::new();

    // Initially not running
    assert!(!emulator.is_running());

    // Create a simple test ROM
    let test_rom = [0x60, 0x05]; // LD V0, 5
    emulator.load_rom(&test_rom).unwrap();

    // Still not running until we step
    assert!(!emulator.is_running());

    // After stepping, should be running
    emulator.step().unwrap();
    assert!(emulator.is_running());

    // Can stop the emulator
    emulator.stop();
    assert!(!emulator.is_running());
}
