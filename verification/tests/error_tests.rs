//! Tests of the error types.

use chip8::error::{AudioError, EmulatorError, GraphicsError};

#[test]
fn test_error_display() {
    let error = EmulatorError::InvalidMemoryAccess { address: 0x1234 };
    assert_eq!(error.to_string(), "Invalid memory access at address 0x1234");
}

#[test]
fn test_rom_too_large_error() {
    let error = EmulatorError::RomTooLarge {
        size: 5000,
        max_size: 3584,
    };
    assert_eq!(
        error.to_string(),
        "ROM file too large: 5000 bytes (max 3584)"
    );
}

#[test]
fn test_unknown_instruction_error() {
    let error = EmulatorError::UnknownInstruction { opcode: 0xABCD };
    assert_eq!(error.to_string(), "Unknown instruction 0xabcd");
}

#[test]
fn test_audio_error_conversion() {
    let audio_err = AudioError::InitializationFailed;
    let emulator_err: EmulatorError = audio_err.into();

    assert!(matches!(
        emulator_err,
        EmulatorError::AudioError(AudioError::InitializationFailed)
    ));
}

#[test]
fn test_graphics_error_conversion() {
    let graphics_err = GraphicsError::InvalidCoordinates { x: 100, y: 200 };
    let emulator_err: EmulatorError = graphics_err.into();

    assert!(matches!(
        emulator_err,
        EmulatorError::Graphics(GraphicsError::InvalidCoordinates { x: 100, y: 200 })
    ));
}
