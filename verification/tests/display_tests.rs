//! Tests of the display.

use chip8::hardware::display::{
    Display, NullDisplay, SoftwareDisplay, DISPLAY_HEIGHT, DISPLAY_PIXELS, DISPLAY_WIDTH,
};

#[test]
fn test_display_creation() {
    let display = SoftwareDisplay::new();

    assert!(!display.is_dirty());
    assert_eq!(display.get_buffer().len(), DISPLAY_PIXELS);
    assert!(display.get_buffer().iter().all(|&pixel| !pixel));
}

#[test]
fn test_clear_display() {
    let mut display = SoftwareDisplay::new();

    // Set some pixels
    display.set_pixel(10, 10, true).unwrap();
    display.set_pixel(20, 15, true).unwrap();
    assert!(display.is_dirty());

    // Clear display
    display.clear();
    assert!(display.is_dirty());
    assert!(!display.get_pixel(10, 10).unwrap());
    assert!(!display.get_pixel(20, 15).unwrap());
}

#[test]
fn test_pixel_operations() {
    let mut display = SoftwareDisplay::new();

    // Test setting pixels
    display.set_pixel(0, 0, true).unwrap();
    display.set_pixel(63, 31, true).unwrap();

    assert!(display.get_pixel(0, 0).unwrap());
    assert!(display.get_pixel(63, 31).unwrap());
    assert!(!display.get_pixel(1, 1).unwrap());

    // Test invalid coordinates
    assert!(display.get_pixel(64, 0).is_err());
    assert!(display.get_pixel(0, 32).is_err());
    assert!(display.set_pixel(64, 0, true).is_err());
}

#[test]
fn test_sprite_drawing() {
    let mut display = SoftwareDisplay::new();

    // Draw a simple sprite (3x3 cross)
    let sprite = [
        0b01000000, // .#......
        0b11100000, // ###.....
        0b01000000, // .#......
    ];

    let collision = display.draw_sprite(0, 0, &sprite).unwrap();
    assert!(!collision); // No collision on empty display

    // Check pixels were set correctly
    assert!(!display.get_pixel(0, 0).unwrap());
    assert!(display.get_pixel(1, 0).unwrap());
    assert!(!display.get_pixel(2, 0).unwrap());

    assert!(display.get_pixel(0, 1).unwrap());
    assert!(display.get_pixel(1, 1).unwrap());
    assert!(display.get_pixel(2, 1).unwrap());

    assert!(!display.get_pixel(0, 2).unwrap());
    assert!(display.get_pixel(1, 2).unwrap());
    assert!(!display.get_pixel(2, 2).unwrap());
}

#[test]
fn test_sprite_collision() {
    let mut display = SoftwareDisplay::new();

    // Set a pixel
    display.set_pixel(1, 1, true).unwrap();

    // Draw sprite that overlaps with the set pixel
    let sprite = [0b01000000]; // .#......
    let collision = display.draw_sprite(0, 1, &sprite).unwrap();

    assert!(collision); // Should detect collision
    assert!(!display.get_pixel(1, 1).unwrap()); // Pixel should be turned off
}

#[test]
fn test_sprite_wrapping() {
    let mut display = SoftwareDisplay::new();

    // Draw sprite at edge to test wrapping
    let sprite = [0b11000000]; // ##......
    display.draw_sprite(63, 0, &sprite).unwrap();

    // Should wrap around
    assert!(display.get_pixel(63, 0).unwrap());
    assert!(display.get_pixel(0, 0).unwrap());
}

#[test]
fn test_dirty_flag() {
    let mut display = SoftwareDisplay::new();

    assert!(!display.is_dirty());

    display.set_pixel(0, 0, true).unwrap();
    assert!(display.is_dirty());

    display.mark_clean();
    assert!(!display.is_dirty());

    display.clear();
    assert!(display.is_dirty());
}

#[test]
fn test_null_display() {
    let mut display = NullDisplay::new();

    display.clear();
    display.set_pixel(10, 10, true).unwrap();
    assert!(display.get_pixel(10, 10).unwrap());

    let sprite = [0b11110000];
    let collision = display.draw_sprite(0, 0, &sprite).unwrap();
    assert!(!collision);

    display.render().unwrap();
}
