//! Tests of the command line's types and checks.

use chip8::frontend::cli::{parse_hex_color, CliApp, Commands};
use std::path::PathBuf;

#[test]
fn test_cli_app_creation() {
    // Basic test to ensure CLI app can be created
    // (We can't actually test parsing without args in unit tests)
    let args = CliApp {
        rom_file: None,
        verbose: true,
        config: None,
        profile: None,
        command: None,
    };

    assert!(args.verbose);
    assert!(args.rom_file.is_none());
    assert!(args.command.is_none());
    assert!(args.config.is_none());
    assert!(args.profile.is_none());
}

#[test]
fn test_parse_hex_color_valid() {
    let white = parse_hex_color("FFFFFF").unwrap();
    assert_eq!(white.r, 255);
    assert_eq!(white.g, 255);
    assert_eq!(white.b, 255);

    let green = parse_hex_color("00FF00").unwrap();
    assert_eq!(green.r, 0);
    assert_eq!(green.g, 255);
    assert_eq!(green.b, 0);

    // With # prefix
    let red = parse_hex_color("#FF0000").unwrap();
    assert_eq!(red.r, 255);
    assert_eq!(red.g, 0);
    assert_eq!(red.b, 0);

    // Lowercase
    let blue = parse_hex_color("0000ff").unwrap();
    assert_eq!(blue.r, 0);
    assert_eq!(blue.g, 0);
    assert_eq!(blue.b, 255);
}

#[test]
fn test_parse_hex_color_invalid() {
    // Too short
    assert!(parse_hex_color("FFF").is_err());

    // Too long
    assert!(parse_hex_color("FFFFFFFF").is_err());

    // Invalid characters
    assert!(parse_hex_color("GGGGGG").is_err());

    // Empty
    assert!(parse_hex_color("").is_err());
}

#[test]
fn test_screenshot_command_parsing() {
    // Test that the command structure can be created correctly
    let args = CliApp {
        rom_file: None,
        verbose: false,
        config: None,
        profile: None,
        command: Some(Commands::Screenshot {
            rom_file: PathBuf::from("test.ch8"),
            output: PathBuf::from("output.png"),
            cycles: 2000,
            scale: 5,
            foreground: "00FF00".to_string(),
            background: "000000".to_string(),
        }),
    };

    if let Some(Commands::Screenshot { cycles, scale, .. }) = args.command {
        assert_eq!(cycles, 2000);
        assert_eq!(scale, 5);
    } else {
        panic!("Expected Screenshot command");
    }
}
