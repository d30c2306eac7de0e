//! Turning the display's pixels into an RGBA frame.
//!
//! Every pixel of the display becomes a square of `scale_factor` by
//! `scale_factor` frame pixels in the foreground or the background colour.

use crate::error::{GraphicsError, GraphicsResult};
use vstd::arithmetic::div_mod::lemma_fundamental_div_mod_converse;
use vstd::prelude::*;

verus! {

/// The greatest scale factor whose frame can be addressed with 32 bits.
pub const MAX_SCALE_FACTOR: u32 = 724;

/// A colour with an alpha channel.
#[derive(Debug, Clone, Copy, PartialEq, Eq, Structural)]
pub struct Color {
    pub r: u8,
    pub g: u8,
    pub b: u8,
    pub a: u8,
}

/// White.
pub open spec fn white_color() -> Color {
    Color { r: 255, g: 255, b: 255, a: 255 }
}

/// Black.
pub open spec fn black_color() -> Color {
    Color { r: 0, g: 0, b: 0, a: 255 }
}

/// The green of monochrome monitors.
pub open spec fn green_color() -> Color {
    Color { r: 0, g: 255, b: 0, a: 255 }
}

/// The amber of monochrome terminals.
pub open spec fn amber_color() -> Color {
    Color { r: 255, g: 191, b: 0, a: 255 }
}

impl Color {
    /// White.
    pub fn white() -> (color: Self)
        ensures
            color == white_color(),
    {
        Self::rgb(255, 255, 255)
    }

    /// Black.
    pub fn black() -> (color: Self)
        ensures
            color == black_color(),
    {
        Self::rgb(0, 0, 0)
    }

    /// The green of monochrome monitors.
    pub fn green() -> (color: Self)
        ensures
            color == green_color(),
    {
        Self::rgb(0, 255, 0)
    }

    /// The amber of monochrome terminals.
    pub fn amber() -> (color: Self)
        ensures
            color == amber_color(),
    {
        Self::rgb(255, 191, 0)
    }

    /// The colour with these four channels.
    pub fn new(r: u8, g: u8, b: u8, a: u8) -> (color: Self)
        ensures
            color == (Color { r, g, b, a }),
    {
        Self { r, g, b, a }
    }

    /// The opaque colour with these three channels.
    pub fn rgb(r: u8, g: u8, b: u8) -> (color: Self)
        ensures
            color == (Color { r, g, b, a: 255 }),
    {
        Self::new(r, g, b, 255)
    }

    /// The opaque grey of this brightness.
    pub fn gray(value: u8) -> (color: Self)
        ensures
            color == (Color { r: value, g: value, b: value, a: 255 }),
    {
        Self::rgb(value, value, value)
    }

    /// The channel with the given number: red, green, blue, alpha.
    pub open spec fn channel(self, number: int) -> u8 {
        if number == 0 {
            self.r
        } else if number == 1 {
            self.g
        } else if number == 2 {
            self.b
        } else {
            self.a
        }
    }

    /// The four channels in the order red, green, blue, alpha.
    pub fn to_rgba(self) -> (channels: [u8; 4])
        ensures
            forall|number: int| 0 <= number < 4 ==> #[trigger] channels@[number] == self.channel(
                number,
            ),
    {
        [self.r, self.g, self.b, self.a]
    }
}

/// How the display is to be shown.
#[derive(Debug, Clone)]
pub struct GraphicsConfig {
    /// Colour of the pixels that are on.
    pub foreground_color: Color,
    /// Colour of the pixels that are off.
    pub background_color: Color,
    /// Edge of the square that one display pixel becomes.
    pub scale_factor: u32,
    /// Whether to smooth when scaling.
    pub smooth_scaling: bool,
    /// Whether to keep the aspect ratio.
    pub maintain_aspect_ratio: bool,
}

/// The settings that a new configuration starts with.
pub open spec fn default_graphics() -> GraphicsConfig {
    GraphicsConfig {
        foreground_color: white_color(),
        background_color: black_color(),
        scale_factor: 10,
        smooth_scaling: false,
        maintain_aspect_ratio: true,
    }
}

impl Default for GraphicsConfig {
    fn default() -> (config: Self)
        ensures
            config == default_graphics(),
    {
        Self {
            foreground_color: Color::white(),
            background_color: Color::black(),
            scale_factor: 10,
            smooth_scaling: false,
            maintain_aspect_ratio: true,
        }
    }
}

impl GraphicsConfig {
    /// White on black at ten times the size.
    pub fn new() -> (config: Self)
        ensures
            config == default_graphics(),
    {
        Self::default()
    }

    /// These settings with another foreground colour.
    pub fn with_foreground_color(self, color: Color) -> (config: Self)
        ensures
            config == (GraphicsConfig { foreground_color: color, ..self }),
    {
        let mut config = self;
        config.foreground_color = color;
        config
    }

    /// These settings with another background colour.
    pub fn with_background_color(self, color: Color) -> (config: Self)
        ensures
            config == (GraphicsConfig { background_color: color, ..self }),
    {
        let mut config = self;
        config.background_color = color;
        config
    }

    /// These settings with another scale factor.
    pub fn with_scale_factor(self, scale: u32) -> (config: Self)
        ensures
            config == (GraphicsConfig { scale_factor: scale, ..self }),
    {
        let mut config = self;
        config.scale_factor = scale;
        config
    }

    /// These settings with smoothing on or off.
    pub fn with_smooth_scaling(self, smooth: bool) -> (config: Self)
        ensures
            config == (GraphicsConfig { smooth_scaling: smooth, ..self }),
    {
        let mut config = self;
        config.smooth_scaling = smooth;
        config
    }

    /// These settings with the aspect ratio kept or not.
    pub fn with_maintain_aspect_ratio(self, maintain: bool) -> (config: Self)
        ensures
            config == (GraphicsConfig { maintain_aspect_ratio: maintain, ..self }),
    {
        let mut config = self;
        config.maintain_aspect_ratio = maintain;
        config
    }

    /// Green on black.
    pub fn classic_green() -> (config: Self)
        ensures
            config == (GraphicsConfig { foreground_color: green_color(), ..default_graphics() }),
    {
        Self::new().with_foreground_color(Color::green()).with_background_color(Color::black())
    }

    /// Amber on black.
    pub fn classic_amber() -> (config: Self)
        ensures
            config == (GraphicsConfig { foreground_color: amber_color(), ..default_graphics() }),
    {
        Self::new().with_foreground_color(Color::amber()).with_background_color(Color::black())
    }

    /// White on black.
    pub fn high_contrast() -> (config: Self)
        ensures
            config == default_graphics(),
    {
        Self::new().with_foreground_color(Color::white()).with_background_color(Color::black())
    }
}

/// The number of bytes of a frame at the given scale.
pub open spec fn frame_len(scale: nat) -> nat {
    (64 * scale) * (32 * scale) * 4
}

/// The byte at place `k` of the frame that shows `display` at the given
/// scale: a channel of the colour of the display pixel that covers the
/// frame pixel `k / 4`.
pub open spec fn frame_byte(display: Seq<bool>, scale: nat, fg: Color, bg: Color, k: int) -> u8 {
    let pixel = k / 4;
    let column = pixel % (64 * scale as int);
    let row = pixel / (64 * scale as int);
    let on = display[(row / scale as int) * 64 + column / scale as int];
    if on {
        fg.channel(k % 4)
    } else {
        bg.channel(k % 4)
    }
}

/// The frame that shows `display` at the given scale, row by row, four
/// bytes for each frame pixel.
pub open spec fn rendered(display: Seq<bool>, scale: nat, fg: Color, bg: Color) -> Seq<u8> {
    Seq::new(frame_len(scale), |k: int| frame_byte(display, scale, fg, bg, k))
}

/// A frame at the greatest scale or below can be addressed with 32 bits.
pub proof fn lemma_frame_fits(scale: nat)
    requires
        scale <= 724,
    ensures
        frame_len(scale) <= 0xFFFF_FFFF,
        (64 * scale) * (32 * scale) * 4 == 8192 * (scale * scale),
{
    assert(scale * scale <= 724 * 724) by (nonlinear_arith)
        requires
            scale <= 724,
    ;
    assert((64 * scale) * (32 * scale) * 4 == 8192 * (scale * scale)) by (nonlinear_arith);
}

/// Renders the display into an RGBA frame that it owns.
pub struct PixelRenderer {
    config: GraphicsConfig,
    frame_buffer: Vec<u8>,
    frame_width: u32,
    frame_height: u32,
}

impl PixelRenderer {
    #[verifier::type_invariant]
    spec fn well_formed(&self) -> bool {
        &&& self.config.scale_factor <= 724
        &&& self.frame_width == 64 * self.config.scale_factor
        &&& self.frame_height == 32 * self.config.scale_factor
        &&& self.frame_buffer@.len() == frame_len(self.config.scale_factor as nat)
    }

    /// The settings.
    pub closed spec fn settings(&self) -> GraphicsConfig {
        self.config
    }

    /// The frame.
    pub closed spec fn frame(&self) -> Seq<u8> {
        self.frame_buffer@
    }

    /// A frame of `len` zero bytes.
    fn zeroed(len: usize) -> (frame: Vec<u8>)
        ensures
            frame@ == Seq::new(len as nat, |k: int| 0u8),
    {
        let mut frame: Vec<u8> = Vec::new();
        let mut k: usize = 0;
        while k < len
            invariant
                k <= len,
                frame@ == Seq::new(k as nat, |j: int| 0u8),
            decreases len - k,
        {
            frame.push(0);
            k += 1;
            assert(frame@ =~= Seq::new(k as nat, |j: int| 0u8));
        }
        frame
    }

    /// Creates a renderer with the given settings and a frame of zero
    /// bytes. The scale factor must not be above `MAX_SCALE_FACTOR`.
    pub fn new(config: GraphicsConfig) -> (result: GraphicsResult<Self>)
        requires
            config.scale_factor <= 724,
        ensures
            result is Ok,
            result->Ok_0.settings() == config,
            result->Ok_0.frame() == Seq::new(
                frame_len(config.scale_factor as nat),
                |k: int| 0u8,
            ),
    {
        proof {
            lemma_frame_fits(config.scale_factor as nat);
        }
        let frame_width = 64 * config.scale_factor;
        let frame_height = 32 * config.scale_factor;
        assert(frame_width * frame_height == (64 * config.scale_factor) * (32
            * config.scale_factor)) by (nonlinear_arith)
            requires
                frame_width == 64 * config.scale_factor,
                frame_height == 32 * config.scale_factor,
        ;
        let frame_buffer = Self::zeroed((frame_width * frame_height * 4) as usize);
        Ok(Self { config, frame_buffer, frame_width, frame_height })
    }

    /// Creates a renderer with the default settings.
    pub fn with_defaults() -> (result: GraphicsResult<Self>)
        ensures
            result is Ok,
            result->Ok_0.settings() == default_graphics(),
            result->Ok_0.frame() == Seq::new(frame_len(10), |k: int| 0u8),
    {
        Self::new(GraphicsConfig::default())
    }

    /// Renders `display_buffer`, which must hold one flag for each pixel of
    /// the display, into the frame. A buffer of another length is refused
    /// and leaves the frame as it is.
    pub fn render(&mut self, display_buffer: &[bool]) -> (result: GraphicsResult<()>)
        ensures
            final(self).settings() == old(self).settings(),
            display_buffer@.len() == 2048 ==> result == Ok::<(), GraphicsError>(())
                && final(self).frame() == rendered(
                display_buffer@,
                old(self).settings().scale_factor as nat,
                old(self).settings().foreground_color,
                old(self).settings().background_color,
            ),
            display_buffer@.len() != 2048 ==> result == Err::<(), GraphicsError>(
                (GraphicsError::InvalidBufferSize { expected: 2048, actual: display_buffer.len() }),
            ) && final(self).frame() == old(self).frame(),
    {
        proof {
            use_type_invariant(&*self);
            lemma_frame_fits(self.config.scale_factor as nat);
        }
        if display_buffer.len() != 2048 {
            return Err(
                GraphicsError::InvalidBufferSize { expected: 2048, actual: display_buffer.len() },
            );
        }
        let fg_color = self.config.foreground_color.to_rgba();
        let bg_color = self.config.background_color.to_rgba();
        let scale = self.config.scale_factor as usize;
        let width = self.frame_width as usize;
        let height = self.frame_height as usize;
        let ghost fg = self.config.foreground_color;
        let ghost bg = self.config.background_color;
        let mut frame: Vec<u8> = Vec::new();
        let mut row: usize = 0;
        while row < height
            invariant
                row <= height,
                scale <= 724,
                width == 64 * scale,
                height == 32 * scale,
                display_buffer@.len() == 2048,
                forall|number: int| 0 <= number < 4 ==> #[trigger] fg_color@[number] == fg.channel(
                    number,
                ),
                forall|number: int| 0 <= number < 4 ==> #[trigger] bg_color@[number] == bg.channel(
                    number,
                ),
                frame@.len() == row * width * 4,
                forall|k: int|
                    0 <= k < frame@.len() ==> #[trigger] frame@[k] == frame_byte(
                        display_buffer@,
                        scale as nat,
                        fg,
                        bg,
                        k,
                    ),
            decreases height - row,
        {
            let src_row = row / scale;
            assert(src_row < 32) by (nonlinear_arith)
                requires
                    src_row == row / scale,
                    row < 32 * scale,
                    scale > 0,
            ;
            let mut column: usize = 0;
            while column < width
                invariant
                    column <= width,
                    row < height,
                    0 < scale <= 724,
                    width == 64 * scale,
                    height == 32 * scale,
                    src_row == row / scale,
                    src_row < 32,
                    display_buffer@.len() == 2048,
                    forall|number: int|
                        0 <= number < 4 ==> #[trigger] fg_color@[number] == fg.channel(number),
                    forall|number: int|
                        0 <= number < 4 ==> #[trigger] bg_color@[number] == bg.channel(number),
                    frame@.len() == (row * width + column) * 4,
                    forall|k: int|
                        0 <= k < frame@.len() ==> #[trigger] frame@[k] == frame_byte(
                            display_buffer@,
                            scale as nat,
                            fg,
                            bg,
                            k,
                        ),
                decreases width - column,
            {
                let src_column = column / scale;
                assert(src_column < 64) by (nonlinear_arith)
                    requires
                        src_column == column / scale,
                        column < 64 * scale,
                        scale > 0,
                ;
                let on = display_buffer[src_row * 64 + src_column];
                let ghost base = frame@.len() as int;
                let ghost before = frame@;
                proof {
                    let pixel = row * width + column;
                    lemma_fundamental_div_mod_converse(
                        pixel as int,
                        width as int,
                        row as int,
                        column as int,
                    );
                }
                let mut channel: usize = 0;
                while channel < 4
                    invariant
                        channel <= 4,
                        base == (row * width + column) * 4,
                        frame@.len() == base + channel,
                        forall|number: int|
                            0 <= number < 4 ==> #[trigger] fg_color@[number] == fg.channel(
                                number,
                            ),
                        forall|number: int|
                            0 <= number < 4 ==> #[trigger] bg_color@[number] == bg.channel(
                                number,
                            ),
                        forall|k: int| 0 <= k < base ==> #[trigger] frame@[k] == before[k],
                        forall|number: int|
                            0 <= number < channel ==> #[trigger] frame@[base + number] == (if on {
                                fg.channel(number)
                            } else {
                                bg.channel(number)
                            }),
                    decreases 4 - channel,
                {
                    if on {
                        frame.push(fg_color[channel]);
                    } else {
                        frame.push(bg_color[channel]);
                    }
                    channel += 1;
                }
                proof {
                    assert forall|k: int| 0 <= k < frame@.len() implies #[trigger] frame@[k]
                        == frame_byte(display_buffer@, scale as nat, fg, bg, k) by {
                        if k >= base {
                            let number = k - base;
                            assert(frame@[base + number] == (if on {
                                fg.channel(number)
                            } else {
                                bg.channel(number)
                            }));
                            lemma_fundamental_div_mod_converse(
                                k,
                                4,
                                (row * width + column) as int,
                                number,
                            );
                        } else {
                            assert(frame@[k] == before[k]);
                        }
                    }
                }
                column += 1;
                assert((row * width + column) * 4 == base + 4) by (nonlinear_arith)
                    requires
                        base == (row * width + (column - 1)) * 4,
                ;
            }
            row += 1;
            assert(row * width * 4 == ((row - 1) * width + width) * 4) by (nonlinear_arith);
        }
        proof {
            assert(height * width * 4 == frame_len(scale as nat)) by (nonlinear_arith)
                requires
                    width == 64 * scale,
                    height == 32 * scale,
            ;
            assert(frame@ =~= rendered(display_buffer@, scale as nat, fg, bg));
        }
        self.frame_buffer = frame;
        Ok(())
    }

    /// Copies the frame to the front of `dest`, which must be at least as
    /// long. A shorter destination is refused and left as it is.
    pub fn copy_to_frame(&self, dest: &mut [u8]) -> (result: GraphicsResult<()>)
        ensures
            old(dest)@.len() >= self.frame().len() ==> result == Ok::<(), GraphicsError>(())
                && final(dest)@ == self.frame() + old(dest)@.subrange(
                self.frame().len() as int,
                old(dest)@.len() as int,
            ),
            old(dest)@.len() < self.frame().len() ==> result == Err::<(), GraphicsError>(
                (GraphicsError::InvalidBufferSize {
                    expected: self.frame().len() as usize,
                    actual: old(dest)@.len() as usize,
                }),
            ) && final(dest)@ == old(dest)@,
    {
        if dest.len() < self.frame_buffer.len() {
            return Err(
                GraphicsError::InvalidBufferSize {
                    expected: self.frame_buffer.len(),
                    actual: dest.len(),
                },
            );
        }
        let mut k: usize = 0;
        while k < self.frame_buffer.len()
            invariant
                k <= self.frame_buffer@.len() <= dest@.len(),
                dest@.len() == old(dest)@.len(),
                forall|j: int| 0 <= j < k ==> #[trigger] dest@[j] == self.frame_buffer@[j],
                forall|j: int| k <= j < dest@.len() ==> #[trigger] dest@[j] == old(dest)@[j],
            decreases self.frame_buffer@.len() - k,
        {
            dest[k] = self.frame_buffer[k];
            k += 1;
        }
        assert(dest@ =~= self.frame() + old(dest)@.subrange(
            self.frame().len() as int,
            old(dest)@.len() as int,
        ));
        Ok(())
    }

    /// The frame.
    pub fn frame_buffer(&self) -> (frame: &[u8])
        ensures
            frame@ == self.frame(),
    {
        self.frame_buffer.as_slice()
    }

    /// Width and height of the frame in frame pixels.
    pub fn frame_size(&self) -> (size: (u32, u32))
        ensures
            size.0 == 64 * self.settings().scale_factor,
            size.1 == 32 * self.settings().scale_factor,
    {
        proof {
            use_type_invariant(self);
        }
        (self.frame_width, self.frame_height)
    }

    /// Takes new settings. If they change the size of the frame, the
    /// frame becomes one of zero bytes of the new size; otherwise it stays
    /// as it is. The scale factor must not be above `MAX_SCALE_FACTOR`.
    pub fn set_config(&mut self, config: GraphicsConfig) -> (result: GraphicsResult<()>)
        requires
            config.scale_factor <= 724,
        ensures
            result == Ok::<(), GraphicsError>(()),
            final(self).settings() == config,
            final(self).frame() == (if config.scale_factor == old(self).settings().scale_factor {
                old(self).frame()
            } else {
                Seq::new(frame_len(config.scale_factor as nat), |k: int| 0u8)
            }),
    {
        proof {
            use_type_invariant(&*self);
            lemma_frame_fits(config.scale_factor as nat);
        }
        let new_width = 64 * config.scale_factor;
        let new_height = 32 * config.scale_factor;
        assert(new_width * new_height == (64 * config.scale_factor) * (32 * config.scale_factor))
            by (nonlinear_arith)
            requires
                new_width == 64 * config.scale_factor,
                new_height == 32 * config.scale_factor,
        ;
        if new_width != self.frame_width || new_height != self.frame_height {
            let frame_buffer = Self::zeroed((new_width * new_height * 4) as usize);
            *self = Self { config, frame_buffer, frame_width: new_width, frame_height: new_height };
        } else {
            let frame_buffer = self.frame_buffer.clone();
            *self = Self { config, frame_buffer, frame_width: new_width, frame_height: new_height };
        }
        Ok(())
    }

    /// The settings.
    pub fn config(&self) -> (config: &GraphicsConfig)
        ensures
            *config == self.settings(),
    {
        &self.config
    }
}

/// Paints the display's pixels into a buffer of the display's own size,
/// four bytes for each pixel: the foreground colour where a pixel is on,
/// the background colour where it is off. Bytes at the end of the buffer
/// that do not make up a whole pixel are left alone. The buffer must not
/// hold more pixels than `frame` has flags.
pub fn draw_frame(frame: &[bool], buffer: &mut [u8], foreground: Color, background: Color)
    requires
        old(buffer)@.len() / 4 <= frame@.len(),
    ensures
        final(buffer)@.len() == old(buffer)@.len(),
        forall|k: int|
            0 <= k < (old(buffer)@.len() / 4) * 4 ==> #[trigger] final(buffer)@[k] == (if frame@[k
                / 4] {
                foreground.channel(k % 4)
            } else {
                background.channel(k % 4)
            }),
        forall|k: int|
            (old(buffer)@.len() / 4) * 4 <= k < old(buffer)@.len() ==> #[trigger] final(buffer)@[k]
                == old(buffer)@[k],
{
    let pixels = buffer.len() / 4;
    let fg = foreground.to_rgba();
    let bg = background.to_rgba();
    let mut i: usize = 0;
    while i < pixels
        invariant
            i <= pixels,
            pixels == old(buffer)@.len() / 4,
            pixels <= frame@.len(),
            buffer@.len() == old(buffer)@.len(),
            forall|number: int| 0 <= number < 4 ==> #[trigger] fg@[number] == foreground.channel(
                number,
            ),
            forall|number: int| 0 <= number < 4 ==> #[trigger] bg@[number] == background.channel(
                number,
            ),
            forall|k: int|
                0 <= k < i * 4 ==> #[trigger] buffer@[k] == (if frame@[k / 4] {
                    foreground.channel(k % 4)
                } else {
                    background.channel(k % 4)
                }),
            forall|k: int| i * 4 <= k < buffer@.len() ==> #[trigger] buffer@[k] == old(buffer)@[k],
        decreases pixels - i,
    {
        let on = frame[i];
        let mut number: usize = 0;
        while number < 4
            invariant
                number <= 4,
                i < pixels,
                pixels == old(buffer)@.len() / 4,
                on == frame@[i as int],
                buffer@.len() == old(buffer)@.len(),
                forall|n: int| 0 <= n < 4 ==> #[trigger] fg@[n] == foreground.channel(n),
                forall|n: int| 0 <= n < 4 ==> #[trigger] bg@[n] == background.channel(n),
                forall|k: int|
                    0 <= k < i * 4 + number ==> #[trigger] buffer@[k] == (if frame@[k / 4] {
                        foreground.channel(k % 4)
                    } else {
                        background.channel(k % 4)
                    }),
                forall|k: int|
                    i * 4 + number <= k < buffer@.len() ==> #[trigger] buffer@[k] == old(
                        buffer,
                    )@[k],
            decreases 4 - number,
        {
            let place = i * 4 + number;
            if on {
                buffer[place] = fg[number];
            } else {
                buffer[place] = bg[number];
            }
            number += 1;
        }
        i += 1;
    }
}

/// A renderer for tests and headless runs: a pixel renderer under another
/// name.
pub struct SoftwareRenderer {
    renderer: PixelRenderer,
}

impl SoftwareRenderer {
    /// The settings.
    pub closed spec fn settings(&self) -> GraphicsConfig {
        self.renderer.settings()
    }

    /// The frame.
    pub closed spec fn frame(&self) -> Seq<u8> {
        self.renderer.frame()
    }

    /// Creates a renderer with the given settings. The scale factor must
    /// not be above `MAX_SCALE_FACTOR`.
    pub fn new(config: GraphicsConfig) -> (result: GraphicsResult<Self>)
        requires
            config.scale_factor <= 724,
        ensures
            result is Ok,
            result->Ok_0.settings() == config,
            result->Ok_0.frame() == Seq::new(
                frame_len(config.scale_factor as nat),
                |k: int| 0u8,
            ),
    {
        match PixelRenderer::new(config) {
            Ok(renderer) => Ok(Self { renderer }),
            Err(e) => Err(e),
        }
    }

    /// Renders `display_buffer` and hands out the frame.
    pub fn render(&mut self, display_buffer: &[bool]) -> (result: GraphicsResult<&[u8]>)
        ensures
            final(self).settings() == old(self).settings(),
            display_buffer@.len() == 2048 ==> result is Ok && result->Ok_0@ == rendered(
                display_buffer@,
                old(self).settings().scale_factor as nat,
                old(self).settings().foreground_color,
                old(self).settings().background_color,
            ) && final(self).frame() == result->Ok_0@,
            display_buffer@.len() != 2048 ==> result == Err::<&[u8], GraphicsError>(
                (GraphicsError::InvalidBufferSize { expected: 2048, actual: display_buffer.len() }),
            ) && final(self).frame() == old(self).frame(),
    {
        self.renderer.render(display_buffer)?;
        Ok(self.renderer.frame_buffer())
    }

    /// Width and height of the frame in frame pixels.
    pub fn frame_size(&self) -> (size: (u32, u32))
        ensures
            size.0 == 64 * self.settings().scale_factor,
            size.1 == 32 * self.settings().scale_factor,
    {
        self.renderer.frame_size()
    }

    /// Takes new settings. If they change the size of the frame, the
    /// frame becomes one of zero bytes of the new size; otherwise it stays
    /// as it is. The scale factor must not be above `MAX_SCALE_FACTOR`.
    pub fn set_config(&mut self, config: GraphicsConfig) -> (result: GraphicsResult<()>)
        requires
            config.scale_factor <= 724,
        ensures
            result == Ok::<(), GraphicsError>(()),
            final(self).settings() == config,
            final(self).frame() == (if config.scale_factor == old(self).settings().scale_factor {
                old(self).frame()
            } else {
                Seq::new(frame_len(config.scale_factor as nat), |k: int| 0u8)
            }),
    {
        self.renderer.set_config(config)
    }
}

} // verus!
