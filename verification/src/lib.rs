//! A Chip-8 virtual machine: memory, registers, call stack, timers, the
//! sprite display and the fetch-decode-execute engine, each with a
//! machine-checked contract, and around them the peripherals and settings
//! that a front end needs.

pub mod audio;
pub mod emulator;
pub mod error;
pub mod frontend;
pub mod graphics;
pub mod hardware;
pub mod input;
pub mod text;

pub use audio::{StreamConfig, WaveformType};
pub use emulator::{Cpu, CpuState, Memory, Registers, Stack, Timers};
pub use error::{EmulatorError, Result};
pub use frontend::{CliApp, EmulatorBehaviorConfig, SimpleEmulator};
pub use graphics::{GraphicsConfig, GraphicsDisplay};
pub use hardware::{Audio, Display, Hardware, Input, NullHardware};
pub use input::{InputSystem, KeyboardInput, NullInputSystem, QwertyMapper};
