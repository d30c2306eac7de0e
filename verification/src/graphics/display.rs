//! A display that can render itself into an RGBA frame.

use crate::error::{EmulatorError, GraphicsError, GraphicsResult};
use crate::graphics::renderer::{
    default_graphics, frame_len, rendered, GraphicsConfig, PixelRenderer,
};
use crate::hardware::display::{
    blank, blank_pixels, draw_into, Display, DisplayError, DisplayResult, DISPLAY_PIXELS,
    DISPLAY_WIDTH,
};
use vstd::prelude::*;

verus! {

/// A display with a renderer of its own.
pub struct GraphicsDisplay {
    buffer: [bool; DISPLAY_PIXELS],
    dirty: bool,
    renderer: PixelRenderer,
}

impl GraphicsDisplay {
    /// The settings of the renderer.
    pub closed spec fn settings(&self) -> GraphicsConfig {
        self.renderer.settings()
    }

    /// The renderer's frame.
    pub closed spec fn frame(&self) -> Seq<u8> {
        self.renderer.frame()
    }

    /// A graphics display has `DISPLAY_PIXELS` pixels.
    pub proof fn lemma_pixel_count(&self)
        ensures
            self.pixels().len() == 2048,
    {
    }

    /// Creates a blank, clean display with the default settings.
    pub fn new() -> (result: GraphicsResult<Self>)
        ensures
            result is Ok,
            result->Ok_0.pixels() == blank(),
            !result->Ok_0.dirty(),
            result->Ok_0.settings() == default_graphics(),
            result->Ok_0.frame() == Seq::new(frame_len(10), |k: int| 0u8),
    {
        match PixelRenderer::with_defaults() {
            Ok(renderer) => Ok(Self { buffer: blank_pixels(), dirty: false, renderer }),
            Err(e) => Err(e),
        }
    }

    /// Creates a blank, clean display with the given settings. The scale
    /// factor must not be above `MAX_SCALE_FACTOR`.
    pub fn with_config(graphics_config: GraphicsConfig) -> (result: GraphicsResult<Self>)
        requires
            graphics_config.scale_factor <= 724,
        ensures
            result is Ok,
            result->Ok_0.pixels() == blank(),
            !result->Ok_0.dirty(),
            result->Ok_0.settings() == graphics_config,
            result->Ok_0.frame() == Seq::new(
                frame_len(graphics_config.scale_factor as nat),
                |k: int| 0u8,
            ),
    {
        match PixelRenderer::new(graphics_config) {
            Ok(renderer) => Ok(Self { buffer: blank_pixels(), dirty: false, renderer }),
            Err(e) => Err(e),
        }
    }

    /// Renders the pixels and hands out the frame.
    pub fn get_pixel_data(&mut self) -> (result: GraphicsResult<&[u8]>)
        ensures
            result is Ok,
            result->Ok_0@ == rendered(
                old(self).pixels(),
                old(self).settings().scale_factor as nat,
                old(self).settings().foreground_color,
                old(self).settings().background_color,
            ),
            final(self).frame() == result->Ok_0@,
            final(self).pixels() == old(self).pixels(),
            final(self).dirty() == old(self).dirty(),
            final(self).settings() == old(self).settings(),
    {
        match self.renderer.render(self.buffer.as_slice()) {
            Ok(_) => Ok(self.renderer.frame_buffer()),
            Err(e) => Err(e),
        }
    }

    /// Width and height of the frame in frame pixels.
    pub fn frame_size(&self) -> (size: (u32, u32))
        ensures
            size.0 == 64 * self.settings().scale_factor,
            size.1 == 32 * self.settings().scale_factor,
    {
        self.renderer.frame_size()
    }

    /// Takes new settings. If they change the size of the frame, the
    /// frame becomes one of zero bytes of the new size; otherwise it stays
    /// as it is. The pixels stay as they are. The scale factor must not be
    /// above `MAX_SCALE_FACTOR`.
    pub fn set_graphics_config(&mut self, config: GraphicsConfig) -> (result: GraphicsResult<()>)
        requires
            config.scale_factor <= 724,
        ensures
            result == Ok::<(), GraphicsError>(()),
            final(self).settings() == config,
            final(self).pixels() == old(self).pixels(),
            final(self).dirty() == old(self).dirty(),
            final(self).frame() == (if config.scale_factor == old(self).settings().scale_factor {
                old(self).frame()
            } else {
                Seq::new(frame_len(config.scale_factor as nat), |k: int| 0u8)
            }),
    {
        self.renderer.set_config(config)
    }

    /// The settings.
    pub fn graphics_config(&self) -> (config: &GraphicsConfig)
        ensures
            *config == self.settings(),
    {
        self.renderer.config()
    }
}

impl Default for GraphicsDisplay {
    fn default() -> (display: Self)
        ensures
            display.pixels() == blank(),
            !display.dirty(),
            display.settings() == default_graphics(),
    {
        Self::new().unwrap()
    }
}

impl Display for GraphicsDisplay {
    closed spec fn pixels(&self) -> Seq<bool> {
        self.buffer@
    }

    closed spec fn dirty(&self) -> bool {
        self.dirty
    }

    /// Settings and frame stay as they are.
    fn clear(&mut self)
        ensures
            final(self).settings() == old(self).settings(),
            final(self).frame() == old(self).frame(),
    {
        self.buffer = blank_pixels();
        self.dirty = true;
    }

    /// Never fails: coordinates wrap. Settings and frame stay as they are.
    fn draw_sprite(&mut self, x: u8, y: u8, sprite: &[u8]) -> (result: DisplayResult<bool>)
        ensures
            result is Ok,
            final(self).settings() == old(self).settings(),
            final(self).frame() == old(self).frame(),
    {
        let collision = draw_into(&mut self.buffer, x, y, sprite);
        if sprite.len() > 0 {
            self.dirty = true;
        }
        Ok(collision)
    }

    /// Succeeds exactly for coordinates on the display.
    fn get_pixel(&self, x: u8, y: u8) -> (result: DisplayResult<bool>)
        ensures
            x < 64 && y < 32 ==> result is Ok,
    {
        if x as usize >= DISPLAY_WIDTH || y as usize >= 32 {
            return Err(DisplayError::InvalidCoordinates { x, y });
        }
        let index = y as usize * DISPLAY_WIDTH + x as usize;
        Ok(self.buffer[index])
    }

    /// Succeeds exactly for coordinates on the display. Settings and frame
    /// stay as they are.
    fn set_pixel(&mut self, x: u8, y: u8, on: bool) -> (result: DisplayResult<()>)
        ensures
            x < 64 && y < 32 ==> result is Ok,
            final(self).settings() == old(self).settings(),
            final(self).frame() == old(self).frame(),
    {
        if x as usize >= DISPLAY_WIDTH || y as usize >= 32 {
            return Err(DisplayError::InvalidCoordinates { x, y });
        }
        let index = y as usize * DISPLAY_WIDTH + x as usize;
        self.buffer[index] = on;
        self.dirty = true;
        Ok(())
    }

    /// Rendering to a screen is left to the window system: this only marks
    /// the display clean.
    fn render(&mut self) -> (result: Result<(), EmulatorError>)
        ensures
            result is Ok,
            !final(self).dirty(),
            final(self).settings() == old(self).settings(),
            final(self).frame() == old(self).frame(),
    {
        self.mark_clean();
        Ok(())
    }

    fn is_dirty(&self) -> (dirty: bool) {
        self.dirty
    }

    /// Settings and frame stay as they are.
    fn mark_clean(&mut self)
        ensures
            final(self).settings() == old(self).settings(),
            final(self).frame() == old(self).frame(),
    {
        self.dirty = false;
    }

    fn get_buffer(&self) -> (buffer: &[bool]) {
        self.buffer.as_slice()
    }

    fn get_buffer_mut(&mut self) -> (buffer: &mut [bool]) {
        self.dirty = true;
        &mut self.buffer
    }
}

} // verus!
