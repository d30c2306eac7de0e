//! Settings of the sound output.

pub mod buzzer;
pub mod stream;

pub use buzzer::WaveformType;
pub use stream::{StreamConfig, StreamSampleFormat};

pub use crate::error::AudioResult as AudioSystemResult;
