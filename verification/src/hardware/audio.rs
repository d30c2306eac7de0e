//! The buzzer: a single tone that is either on or off.
//!
//! The machine only ever switches the tone on and off. How loud and how
//! high it sounds is the affair of whoever implements the sink.

use crate::error::AudioError;
use vstd::prelude::*;

verus! {

/// Result of an audio operation.
pub type AudioResult<T> = Result<T, AudioError>;

/// A sink for the buzzer's tone.
///
/// Starting a tone that plays and stopping one that does not are allowed
/// and change nothing.
pub trait Audio {
    /// Whether the tone is on. Sinks that are verified say what this is;
    /// of any other sink nothing is known.
    open spec fn playing(&self) -> bool {
        arbitrary()
    }

    /// Switches the tone on. A sink that accepts the call plays afterwards.
    fn play_beep(&mut self) -> (result: AudioResult<()>)
        ensures
            result is Ok ==> final(self).playing(),
    ;

    /// Switches the tone off. A sink that accepts the call is silent
    /// afterwards.
    fn stop_beep(&mut self) -> (result: AudioResult<()>)
        ensures
            result is Ok ==> !final(self).playing(),
    ;

    /// Whether the tone is on.
    fn is_playing(&self) -> (playing: bool)
        ensures
            playing == self.playing(),
    ;
}

/// A buzzer without a loudspeaker, for tests and silent runs: it only
/// remembers whether the tone is on.
pub struct NullAudio {
    playing: bool,
}

impl NullAudio {
    /// Creates a silent buzzer.
    pub fn new() -> (audio: Self)
        ensures
            !audio.playing(),
    {
        Self { playing: false }
    }
}

impl Default for NullAudio {
    fn default() -> (audio: Self)
        ensures
            !audio.playing(),
    {
        Self::new()
    }
}

impl Audio for NullAudio {
    closed spec fn playing(&self) -> bool {
        self.playing
    }

    /// Never fails.
    fn play_beep(&mut self) -> (result: AudioResult<()>)
        ensures
            result is Ok,
    {
        self.playing = true;
        Ok(())
    }

    /// Never fails.
    fn stop_beep(&mut self) -> (result: AudioResult<()>)
        ensures
            result is Ok,
    {
        self.playing = false;
        Ok(())
    }

    fn is_playing(&self) -> (playing: bool) {
        self.playing
    }
}

} // verus!
