//! Showing the display: colours, scaling and a display that renders
//! itself.

pub mod display;
pub mod renderer;

pub use display::GraphicsDisplay;
pub use renderer::{Color, GraphicsConfig, PixelRenderer};

pub use crate::error::GraphicsResult;
