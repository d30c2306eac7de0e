//! What stands between the machine and its user: configuration, the
//! checks that the command line makes, and a machine that is ready to run.

pub mod cli;
pub mod config;
pub mod emulator;

pub use cli::{CliApp, Commands};
pub use config::EmulatorBehaviorConfig;
pub use emulator::SimpleEmulator;

pub use crate::error::Result as FrontendResult;
