//! The emulator core: memory, registers, call stack, timers and the engine.

pub mod cpu;
pub mod machine;
pub mod memory;
pub mod registers;
pub mod stack;
pub mod timers;

pub use cpu::{Cpu, CpuState};
pub use memory::{Memory, FONT_START, MEMORY_SIZE, PROGRAM_START};
pub use registers::{Registers, FLAG_REGISTER, NUM_REGISTERS};
pub use stack::{Stack, STACK_SIZE};
pub use timers::{Timers, TIMER_FREQUENCY};
