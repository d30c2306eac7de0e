//! The host's keyboard as a keypad: keyboard events, key maps and the
//! input system that puts them together.

pub mod keyboard;
pub mod mapper;
pub mod system;
pub mod table;

pub use keyboard::{InputSystemResult, KeyboardConfig, KeyboardInput};
pub use mapper::{CustomMapper, KeyMapper, QwertyMapper};
pub use system::{InputSystem, NullInputSystem};
