//! The shape of the buzzer's tone.

use vstd::prelude::*;

verus! {

/// The waveforms that a buzzer can produce.
#[derive(Debug, Clone, Copy, PartialEq, Eq, Structural)]
pub enum WaveformType {
    /// A smooth tone.
    Sine,
    /// The classic 8-bit sound.
    Square,
    /// A harsh tone.
    Sawtooth,
    /// Softer than square.
    Triangle,
}

} // verus!
