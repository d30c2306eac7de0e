//! The machine's peripherals: display, keypad and buzzer.

pub mod audio;
pub mod display;
pub mod input;
pub mod null;

pub use audio::{Audio, AudioResult};
pub use display::{Display, DisplayResult, DISPLAY_HEIGHT, DISPLAY_PIXELS, DISPLAY_WIDTH};
pub use input::{ChipKey, Input, InputResult};
pub use null::{Hardware, HardwareResult, NullHardware};

pub use crate::error::{AudioError, GraphicsError, InputError};
