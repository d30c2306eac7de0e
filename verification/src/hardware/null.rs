//! All peripherals in one piece, and a set of peripherals that does
//! nothing, for tests and headless runs.

use crate::error::EmulatorError;
use crate::hardware::audio::{Audio, NullAudio};
use crate::hardware::display::{blank, Display, NullDisplay};
use crate::hardware::input::{ChipKey, Input, NullInput};
use vstd::prelude::*;

verus! {

/// Result of an operation on the peripherals as a whole.
pub type HardwareResult<T> = Result<T, EmulatorError>;

/// A display, an audio sink and a keypad that belong together.
pub trait Hardware {
    type Display: Display;

    type Audio: Audio;

    type Input: Input;

    /// The display.
    fn display(&mut self) -> &mut Self::Display;

    /// The audio sink.
    fn audio(&mut self) -> &mut Self::Audio;

    /// The keypad.
    fn input(&mut self) -> &mut Self::Input;

    /// Ends a frame: the keypad starts a new one and the display is
    /// rendered.
    fn update(&mut self) -> HardwareResult<()>;
}

/// Peripherals that do nothing.
pub struct NullHardware {
    display: NullDisplay,
    audio: NullAudio,
    input: NullInput,
}

impl NullHardware {
    /// The display's pixels.
    pub closed spec fn pixels(&self) -> Seq<bool> {
        self.display.pixels()
    }

    /// Whether the display is dirty.
    pub closed spec fn dirty(&self) -> bool {
        self.display.dirty()
    }

    /// Whether the tone is on.
    pub closed spec fn playing(&self) -> bool {
        self.audio.playing()
    }

    /// Whether `key` is down.
    pub closed spec fn pressed(&self, key: ChipKey) -> bool {
        self.input.pressed(key)
    }

    /// Creates peripherals at rest: a blank, clean display, no tone, no key
    /// down.
    pub fn new() -> (hardware: Self)
        ensures
            hardware.pixels() == blank(),
            !hardware.dirty(),
            !hardware.playing(),
            forall|k: ChipKey| !hardware.pressed(k),
    {
        Self { display: NullDisplay::new(), audio: NullAudio::new(), input: NullInput::new() }
    }
}

impl Default for NullHardware {
    fn default() -> (hardware: Self)
        ensures
            hardware.pixels() == blank(),
            !hardware.dirty(),
            !hardware.playing(),
            forall|k: ChipKey| !hardware.pressed(k),
    {
        Self::new()
    }
}

impl Hardware for NullHardware {
    type Display = NullDisplay;

    type Audio = NullAudio;

    type Input = NullInput;

    fn display(&mut self) -> (display: &mut NullDisplay)
        ensures
            display.pixels() == old(self).pixels(),
            display.dirty() == old(self).dirty(),
            final(self).pixels() == final(display).pixels(),
            final(self).dirty() == final(display).dirty(),
            final(self).playing() == old(self).playing(),
            forall|k: ChipKey| final(self).pressed(k) == old(self).pressed(k),
    {
        &mut self.display
    }

    fn audio(&mut self) -> (audio: &mut NullAudio)
        ensures
            audio.playing() == old(self).playing(),
            final(self).playing() == final(audio).playing(),
            final(self).pixels() == old(self).pixels(),
            final(self).dirty() == old(self).dirty(),
            forall|k: ChipKey| final(self).pressed(k) == old(self).pressed(k),
    {
        &mut self.audio
    }

    fn input(&mut self) -> (input: &mut NullInput)
        ensures
            forall|k: ChipKey| input.pressed(k) == old(self).pressed(k),
            forall|k: ChipKey| final(self).pressed(k) == final(input).pressed(k),
            final(self).pixels() == old(self).pixels(),
            final(self).dirty() == old(self).dirty(),
            final(self).playing() == old(self).playing(),
    {
        &mut self.input
    }

    /// Never fails; leaves the display clean and everything else as it
    /// was.
    fn update(&mut self) -> (result: HardwareResult<()>)
        ensures
            result is Ok,
            final(self).pixels() == old(self).pixels(),
            !final(self).dirty(),
            final(self).playing() == old(self).playing(),
            forall|k: ChipKey| final(self).pressed(k) == old(self).pressed(k),
    {
        match self.input.update() {
            Ok(_) => {},
            Err(e) => {
                return Err(EmulatorError::from(e));
            },
        }
        self.display.render()
    }
}

} // verus!
