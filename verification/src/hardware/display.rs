//! The 64x32 monochrome display.
//!
//! Sprites are composited by XOR: every set bit of a sprite toggles one
//! pixel, both axes wrap around, and a draw reports a collision when it
//! switched a lit pixel off. Contracts are stated over a display's pixels,
//! a row-major sequence of 2048 booleans.

use crate::error::EmulatorError;
use crate::text::{decimal_text, push_decimal};
use vstd::prelude::*;
use vstd::string::StringExecFns;

verus! {

/// Display width in pixels.
pub const DISPLAY_WIDTH: usize = 64;

/// Display height in pixels.
pub const DISPLAY_HEIGHT: usize = 32;

/// Total number of pixels.
pub const DISPLAY_PIXELS: usize = 2048;

/// Failures of a display.
#[derive(Debug)]
pub enum DisplayError {
    InvalidCoordinates { x: u8, y: u8 },
    NotInitialized,
    RenderError(String),
    InvalidSpriteData,
}

/// Result of a display operation.
pub type DisplayResult<T> = Result<T, DisplayError>;

impl DisplayError {
    /// The message of this error.
    pub open spec fn message(&self) -> Seq<char> {
        match self {
            DisplayError::InvalidCoordinates { x, y } => "Invalid pixel coordinates: ("@
                + decimal_text(*x as nat) + ", "@ + decimal_text(*y as nat) + ")"@,
            DisplayError::NotInitialized => "Display not initialized"@,
            DisplayError::RenderError(detail) => "Render error: "@ + detail@,
            DisplayError::InvalidSpriteData => "Invalid sprite data"@,
        }
    }

    /// The message of this error.
    pub fn to_string(&self) -> (text: String)
        ensures
            text@ == self.message(),
    {
        match self {
            DisplayError::InvalidCoordinates { x, y } => {
                let mut text = String::from_str("Invalid pixel coordinates: (");
                push_decimal(&mut text, *x as u64);
                text.append(", ");
                push_decimal(&mut text, *y as u64);
                text.append(")");
                text
            },
            DisplayError::NotInitialized => String::from_str("Display not initialized"),
            DisplayError::RenderError(detail) => String::from_str("Render error: ").concat(
                detail.as_str(),
            ),
            DisplayError::InvalidSpriteData => String::from_str("Invalid sprite data"),
        }
    }
}

/// A display with every pixel off.
pub open spec fn blank() -> Seq<bool> {
    Seq::new(2048, |i: int| false)
}

/// The place in the pixel sequence of the pixel in column `x` of row `y`,
/// both taken modulo the display's size.
pub open spec fn cell_index(x: int, y: int) -> int {
    (y % 32) * 64 + (x % 64)
}

/// Whether a sprite row has its bit for column `col` set; column 0 is the
/// most significant bit.
pub open spec fn sprite_bit(row_bits: u8, col: u8) -> bool {
    (row_bits >> ((7 - col) as u8)) & 1u8 == 1u8
}

/// The pixels after the first `count` bits of a sprite are drawn at
/// `(x, y)`, and whether one of these bits switched a lit pixel off. Bits
/// are taken row by row, most significant first; a set bit in column `col`
/// of row `row` toggles the pixel at `(x + col, y + row)`.
pub open spec fn draw_bits(pixels: Seq<bool>, x: u8, y: u8, sprite: Seq<u8>, count: nat) -> (
    Seq<bool>,
    bool,
)
    decreases count,
{
    if count == 0 {
        (pixels, false)
    } else {
        let (before, hit) = draw_bits(pixels, x, y, sprite, (count - 1) as nat);
        let row = (count - 1) / 8;
        let col = (count - 1) % 8;
        if sprite_bit(sprite[row], col as u8) {
            let cell = cell_index(x + col, y + row);
            (before.update(cell, !before[cell]), hit || before[cell])
        } else {
            (before, hit)
        }
    }
}

/// The pixels after a whole sprite is drawn at `(x, y)`, and whether the
/// draw collided.
pub open spec fn drawn(pixels: Seq<bool>, x: u8, y: u8, sprite: Seq<u8>) -> (Seq<bool>, bool) {
    draw_bits(pixels, x, y, sprite, sprite.len() * 8)
}

/// Drawing keeps the number of pixels.
pub proof fn lemma_draw_bits_len(pixels: Seq<bool>, x: u8, y: u8, sprite: Seq<u8>, count: nat)
    requires
        pixels.len() == 2048,
    ensures
        draw_bits(pixels, x, y, sprite, count).0.len() == 2048,
    decreases count,
{
    if count > 0 {
        lemma_draw_bits_len(pixels, x, y, sprite, (count - 1) as nat);
    }
}

/// The pixels that differ between the two displays: the exclusive or,
/// pixel by pixel.
pub open spec fn xor_pixels(a: Seq<bool>, b: Seq<bool>) -> Seq<bool> {
    Seq::new(a.len(), |i: int| a[i] != b[i])
}

/// Law: drawing is an exclusive or with a mask. What a sprite does to a
/// display does not depend on what the display shows: the pixels after
/// the draw are the pixels before it, exclusive-or the pixels that the
/// same draw lights on a blank display.
pub proof fn lemma_draw_is_xor(pixels: Seq<bool>, x: u8, y: u8, sprite: Seq<u8>, count: nat)
    requires
        pixels.len() == 2048,
    ensures
        draw_bits(pixels, x, y, sprite, count).0 == xor_pixels(
            pixels,
            draw_bits(blank(), x, y, sprite, count).0,
        ),
    decreases count,
{
    if count == 0 {
        assert(draw_bits(pixels, x, y, sprite, count).0 =~= xor_pixels(pixels, blank()));
    } else {
        let before = (count - 1) as nat;
        lemma_draw_is_xor(pixels, x, y, sprite, before);
        lemma_draw_bits_len(pixels, x, y, sprite, before);
        lemma_draw_bits_len(blank(), x, y, sprite, before);
        let col = (count - 1) % 8;
        let row = (count - 1) / 8;
        let cell = cell_index(x + col, y + row);
        assert(0 <= cell < 2048);
        assert(draw_bits(pixels, x, y, sprite, count).0 =~= xor_pixels(
            pixels,
            draw_bits(blank(), x, y, sprite, count).0,
        ));
    }
}

/// Law: drawing a sprite twice at the same place restores the display,
/// whatever was on it.
pub proof fn lemma_draw_twice_restores(pixels: Seq<bool>, x: u8, y: u8, sprite: Seq<u8>)
    requires
        pixels.len() == 2048,
    ensures
        drawn(drawn(pixels, x, y, sprite).0, x, y, sprite).0 == pixels,
{
    let count = sprite.len() * 8;
    let once = drawn(pixels, x, y, sprite).0;
    lemma_draw_bits_len(pixels, x, y, sprite, count);
    lemma_draw_bits_len(blank(), x, y, sprite, count);
    lemma_draw_is_xor(pixels, x, y, sprite, count);
    lemma_draw_is_xor(once, x, y, sprite, count);
    assert(drawn(once, x, y, sprite).0 =~= pixels);
}

/// Whether bit number `bit` of a sprite is set; the bits are counted row
/// by row, most significant first.
pub open spec fn bit_is_set(sprite: Seq<u8>, bit: int) -> bool {
    sprite_bit(sprite[bit / 8], (bit % 8) as u8)
}

/// The place in the pixel sequence of the pixel that bit number `bit` of a
/// sprite at `(x, y)` falls on.
pub open spec fn bit_cell(x: u8, y: u8, bit: int) -> int {
    cell_index(x + bit % 8, y + bit / 8)
}

/// No two bits of a sprite of at most 32 rows fall on the same pixel.
pub proof fn lemma_bits_fall_apart(x: u8, y: u8, first: int, second: int)
    requires
        0 <= first < 256,
        0 <= second < 256,
        first != second,
    ensures
        bit_cell(x, y, first) != bit_cell(x, y, second),
{
    let r1 = first / 8;
    let r2 = second / 8;
    let c1 = first % 8;
    let c2 = second % 8;
    if r1 == r2 {
        assert(c1 != c2);
        assert((x + c1) % 64 != (x + c2) % 64);
    } else {
        assert((y + r1) % 32 != (y + r2) % 32);
    }
}

/// Law: a draw collides exactly where the sprite overlaps what is lit.
/// For a sprite of at most 32 rows, a pixel under a set bit is toggled,
/// every other pixel stays, and the draw collides if and only if a set bit
/// falls on a lit pixel.
pub proof fn lemma_draw_toggles_and_collides(
    pixels: Seq<bool>,
    x: u8,
    y: u8,
    sprite: Seq<u8>,
    count: nat,
)
    requires
        pixels.len() == 2048,
        sprite.len() <= 32,
        count <= sprite.len() * 8,
    ensures
        forall|bit: int|
            0 <= bit < count ==> #[trigger] draw_bits(pixels, x, y, sprite, count).0[bit_cell(
                x,
                y,
                bit,
            )] == (pixels[bit_cell(x, y, bit)] != bit_is_set(sprite, bit)),
        forall|cell: int|
            0 <= cell < 2048 && (forall|bit: int|
                0 <= bit < count ==> #[trigger] bit_cell(x, y, bit) != cell) ==> draw_bits(
                pixels,
                x,
                y,
                sprite,
                count,
            ).0[cell] == pixels[cell],
        draw_bits(pixels, x, y, sprite, count).1 == exists|bit: int|
            0 <= bit < count && #[trigger] bit_is_set(sprite, bit) && pixels[bit_cell(x, y, bit)],
    decreases count,
{
    if count > 0 {
        let before = (count - 1) as nat;
        let last = count - 1;
        lemma_draw_toggles_and_collides(pixels, x, y, sprite, before);
        lemma_draw_bits_len(pixels, x, y, sprite, before);
        let (was, hit) = draw_bits(pixels, x, y, sprite, before);
        let now = draw_bits(pixels, x, y, sprite, count);
        let cell = bit_cell(x, y, last);
        assert forall|bit: int| 0 <= bit < before implies #[trigger] bit_cell(x, y, bit)
            != cell by {
            lemma_bits_fall_apart(x, y, bit, last);
        }
        assert(0 <= cell < 2048);
        assert(was[cell] == pixels[cell]);
        assert forall|bit: int| 0 <= bit < count implies #[trigger] now.0[bit_cell(x, y, bit)]
            == (pixels[bit_cell(x, y, bit)] != bit_is_set(sprite, bit)) by {
            if bit < last {
                lemma_bits_fall_apart(x, y, bit, last);
                assert(was[bit_cell(x, y, bit)] == (pixels[bit_cell(x, y, bit)] != bit_is_set(
                    sprite,
                    bit,
                )));
            }
        }
        assert forall|other: int|
            0 <= other < 2048 && (forall|bit: int|
                0 <= bit < count ==> #[trigger] bit_cell(x, y, bit) != other) implies now.0[other]
            == pixels[other] by {
            assert(bit_cell(x, y, last) != other);
            assert(forall|bit: int| 0 <= bit < before ==> #[trigger] bit_cell(x, y, bit) != other);
        }
        if bit_is_set(sprite, last) && pixels[cell] {
            assert(bit_is_set(sprite, last) && pixels[bit_cell(x, y, last)]);
        }
        if hit {
            let witness = choose|bit: int|
                0 <= bit < before && #[trigger] bit_is_set(sprite, bit) && pixels[bit_cell(
                    x,
                    y,
                    bit,
                )];
            assert(0 <= witness < count && bit_is_set(sprite, witness) && pixels[bit_cell(
                x,
                y,
                witness,
            )]);
        }
        if exists|bit: int|
            0 <= bit < count && #[trigger] bit_is_set(sprite, bit) && pixels[bit_cell(x, y, bit)] {
            let witness = choose|bit: int|
                0 <= bit < count && #[trigger] bit_is_set(sprite, bit) && pixels[bit_cell(
                    x,
                    y,
                    bit,
                )];
            if witness < last {
                assert(0 <= witness < before && bit_is_set(sprite, witness) && pixels[bit_cell(
                    x,
                    y,
                    witness,
                )]);
                assert(hit);
            }
        }
    }
}

/// The screen of the machine.
///
/// A display that refuses an operation leaves its pixels as they were.
pub trait Display {
    /// The pixels, row by row. Displays that are verified say what this
    /// is; of any other display nothing is known.
    open spec fn pixels(&self) -> Seq<bool> {
        arbitrary()
    }

    /// Whether the pixels have changed since they were last rendered.
    /// Displays that are verified say what this is; of any other display
    /// nothing is known.
    open spec fn dirty(&self) -> bool {
        arbitrary()
    }

    /// Switches every pixel off.
    fn clear(&mut self)
        ensures
            final(self).pixels() == blank(),
            final(self).dirty(),
    ;

    /// Draws `sprite` at `(x, y)` and reports whether it collided.
    fn draw_sprite(&mut self, x: u8, y: u8, sprite: &[u8]) -> (result: DisplayResult<bool>)
        ensures
            result matches Ok(collision) ==> (final(self).pixels(), collision) == drawn(
                old(self).pixels(),
                x,
                y,
                sprite@,
            ) && final(self).dirty() == (old(self).dirty() || sprite@.len() > 0),
            result is Err ==> final(self).pixels() == old(self).pixels() && final(self).dirty()
                == old(self).dirty(),
    ;

    /// The pixel in column `x` of row `y`.
    fn get_pixel(&self, x: u8, y: u8) -> (result: DisplayResult<bool>)
        ensures
            result matches Ok(on) ==> x < 64 && y < 32 && on == self.pixels()[y * 64 + x],
            !(x < 64 && y < 32) ==> result == Err::<bool, DisplayError>(
                (DisplayError::InvalidCoordinates { x, y }),
            ),
    ;

    /// Switches the pixel in column `x` of row `y` on or off.
    fn set_pixel(&mut self, x: u8, y: u8, on: bool) -> (result: DisplayResult<()>)
        ensures
            result is Ok ==> x < 64 && y < 32 && final(self).pixels() == old(
                self,
            ).pixels().update(y * 64 + x, on) && final(self).dirty(),
            result is Err ==> final(self).pixels() == old(self).pixels() && final(self).dirty()
                == old(self).dirty(),
            !(x < 64 && y < 32) ==> result == Err::<(), DisplayError>(
                (DisplayError::InvalidCoordinates { x, y }),
            ),
    ;

    /// Shows the pixels on the screen.
    fn render(&mut self) -> (result: Result<(), EmulatorError>)
        ensures
            final(self).pixels() == old(self).pixels(),
    ;

    /// Whether the pixels have changed since they were last rendered.
    fn is_dirty(&self) -> (dirty: bool)
        ensures
            dirty == self.dirty(),
    ;

    /// Declares the pixels rendered.
    fn mark_clean(&mut self)
        ensures
            final(self).pixels() == old(self).pixels(),
            !final(self).dirty(),
    ;

    /// The pixels, row by row.
    fn get_buffer(&self) -> (buffer: &[bool])
        ensures
            buffer@ == self.pixels(),
    ;

    /// The pixels, row by row, to be changed in place. The display counts
    /// as changed from the moment the pixels are handed out.
    fn get_buffer_mut(&mut self) -> (buffer: &mut [bool])
        ensures
            buffer@ == old(self).pixels(),
            final(self).pixels() == final(buffer)@,
            final(self).dirty(),
    ;
}

/// A display that lives in memory only.
pub struct SoftwareDisplay {
    pixels: [bool; DISPLAY_PIXELS],
    dirty: bool,
}

impl SoftwareDisplay {
    /// Creates a blank, clean display.
    pub fn new() -> (display: Self)
        ensures
            display.pixels() == blank(),
            !display.dirty(),
    {
        Self { pixels: blank_pixels(), dirty: false }
    }

    /// A software display has `DISPLAY_PIXELS` pixels.
    pub proof fn lemma_pixel_count(&self)
        ensures
            self.pixels().len() == 2048,
    {
    }

    /// The place of `(x, y)` in the pixel sequence, for coordinates on the
    /// display.
    fn coord_to_index(&self, x: u8, y: u8) -> (result: DisplayResult<usize>)
        ensures
            x < 64 && y < 32 ==> result == Ok::<usize, DisplayError>((y * 64 + x) as usize),
            !(x < 64 && y < 32) ==> result == Err::<usize, DisplayError>(
                (DisplayError::InvalidCoordinates { x, y }),
            ),
    {
        if x as usize >= DISPLAY_WIDTH || y as usize >= DISPLAY_HEIGHT {
            return Err(DisplayError::InvalidCoordinates { x, y });
        }
        Ok(y as usize * DISPLAY_WIDTH + x as usize)
    }
}

impl Default for SoftwareDisplay {
    fn default() -> (display: Self)
        ensures
            display.pixels() == blank(),
            !display.dirty(),
    {
        Self::new()
    }
}

/// An array of pixels that are all off.
pub(crate) fn blank_pixels() -> (array: [bool; 2048])
    ensures
        array@ == blank(),
{
    let off: [bool; 2048] = [false;2048];
    assert forall|i: int| 0 <= i < 2048 implies off@[i] == false by {
        assert(off@[i] == vstd::array::spec_array_fill_for_copy_type::<bool, 2048>(false)@[i]);
    }
    assert(off@ =~= blank());
    off
}

/// Draws `sprite` at `(x, y)` into `pixels` and reports whether it
/// collided.
pub fn draw_into(pixels: &mut [bool; DISPLAY_PIXELS], x: u8, y: u8, sprite: &[u8]) -> (collision:
    bool)
    ensures
        (final(pixels)@, collision) == drawn(old(pixels)@, x, y, sprite@),
{
    let mut collision = false;
    let mut row: usize = 0;
    while row < sprite.len()
        invariant
            row <= sprite@.len(),
            (pixels@, collision) == draw_bits(old(pixels)@, x, y, sprite@, (row * 8) as nat),
        decreases sprite@.len() - row,
    {
        let sprite_byte = sprite[row];
        let pixel_y = (y as usize % DISPLAY_HEIGHT + row % DISPLAY_HEIGHT) % DISPLAY_HEIGHT;
        assert(pixel_y == (y + row) % 32);
        let mut col: u8 = 0;
        while col < 8
            invariant
                col <= 8,
                row < sprite@.len(),
                sprite_byte == sprite@[row as int],
                pixel_y == (y + row) % 32,
                (pixels@, collision) == draw_bits(
                    old(pixels)@,
                    x,
                    y,
                    sprite@,
                    (row * 8 + col) as nat,
                ),
            decreases 8 - col,
        {
            let pixel_x = (x as usize + col as usize) % DISPLAY_WIDTH;
            let shift: u8 = 7 - col;
            let sprite_pixel = (sprite_byte >> shift) & 1;
            let ghost count = (row * 8 + col) as nat;
            assert(count / 8 == row && count % 8 == col);
            assert(draw_bits(old(pixels)@, x, y, sprite@, count + 1) == {
                let (before, hit) = draw_bits(old(pixels)@, x, y, sprite@, count);
                if sprite_bit(sprite@[row as int], col) {
                    let cell = cell_index(x + col, y + row);
                    (before.update(cell, !before[cell]), hit || before[cell])
                } else {
                    (before, hit)
                }
            });
            if sprite_pixel == 1 {
                let index = pixel_y * DISPLAY_WIDTH + pixel_x;
                let old_pixel = pixels[index];
                pixels[index] = !old_pixel;
                if old_pixel {
                    collision = true;
                }
            }
            col += 1;
        }
        row += 1;
    }
    collision
}

impl Display for SoftwareDisplay {
    closed spec fn pixels(&self) -> Seq<bool> {
        self.pixels@
    }

    closed spec fn dirty(&self) -> bool {
        self.dirty
    }

    fn clear(&mut self) {
        self.pixels = blank_pixels();
        self.dirty = true;
    }

    /// Never fails: coordinates wrap.
    fn draw_sprite(&mut self, x: u8, y: u8, sprite: &[u8]) -> (result: DisplayResult<bool>)
        ensures
            result is Ok,
    {
        let collision = draw_into(&mut self.pixels, x, y, sprite);
        if sprite.len() > 0 {
            self.dirty = true;
        }
        Ok(collision)
    }

    /// Succeeds exactly for coordinates on the display.
    fn get_pixel(&self, x: u8, y: u8) -> (result: DisplayResult<bool>)
        ensures
            x < 64 && y < 32 ==> result is Ok,
    {
        let index = self.coord_to_index(x, y)?;
        Ok(self.pixels[index])
    }

    /// Succeeds exactly for coordinates on the display.
    fn set_pixel(&mut self, x: u8, y: u8, on: bool) -> (result: DisplayResult<()>)
        ensures
            x < 64 && y < 32 ==> result is Ok,
    {
        let index = self.coord_to_index(x, y)?;
        self.pixels[index] = on;
        self.dirty = true;
        Ok(())
    }

    /// There is no screen: rendering only marks the display clean.
    fn render(&mut self) -> (result: Result<(), EmulatorError>)
        ensures
            result is Ok,
            !final(self).dirty(),
    {
        self.mark_clean();
        Ok(())
    }

    fn is_dirty(&self) -> (dirty: bool) {
        self.dirty
    }

    fn mark_clean(&mut self) {
        self.dirty = false;
    }

    fn get_buffer(&self) -> (buffer: &[bool]) {
        self.pixels.as_slice()
    }

    fn get_buffer_mut(&mut self) -> (buffer: &mut [bool]) {
        self.dirty = true;
        &mut self.pixels
    }
}

/// A display for tests and headless runs: a software display under
/// another name.
pub struct NullDisplay {
    display: SoftwareDisplay,
}

impl NullDisplay {
    /// Creates a blank, clean display.
    pub fn new() -> (display: Self)
        ensures
            display.pixels() == blank(),
            !display.dirty(),
    {
        Self { display: SoftwareDisplay::new() }
    }
}

impl Default for NullDisplay {
    fn default() -> (display: Self)
        ensures
            display.pixels() == blank(),
            !display.dirty(),
    {
        Self::new()
    }
}

impl Display for NullDisplay {
    closed spec fn pixels(&self) -> Seq<bool> {
        self.display.pixels()
    }

    closed spec fn dirty(&self) -> bool {
        self.display.dirty()
    }

    fn clear(&mut self) {
        self.display.clear();
    }

    /// Never fails: coordinates wrap.
    fn draw_sprite(&mut self, x: u8, y: u8, sprite: &[u8]) -> (result: DisplayResult<bool>)
        ensures
            result is Ok,
    {
        self.display.draw_sprite(x, y, sprite)
    }

    /// Succeeds exactly for coordinates on the display.
    fn get_pixel(&self, x: u8, y: u8) -> (result: DisplayResult<bool>)
        ensures
            x < 64 && y < 32 ==> result is Ok,
    {
        self.display.get_pixel(x, y)
    }

    /// Succeeds exactly for coordinates on the display.
    fn set_pixel(&mut self, x: u8, y: u8, on: bool) -> (result: DisplayResult<()>)
        ensures
            x < 64 && y < 32 ==> result is Ok,
    {
        self.display.set_pixel(x, y, on)
    }

    /// There is no screen: rendering only marks the display clean.
    fn render(&mut self) -> (result: Result<(), EmulatorError>)
        ensures
            result is Ok,
            !final(self).dirty(),
    {
        self.mark_clean();
        Ok(())
    }

    fn is_dirty(&self) -> (dirty: bool) {
        self.display.is_dirty()
    }

    fn mark_clean(&mut self) {
        self.display.mark_clean();
    }

    fn get_buffer(&self) -> (buffer: &[bool]) {
        self.display.get_buffer()
    }

    fn get_buffer_mut(&mut self) -> (buffer: &mut [bool]) {
        self.display.get_buffer_mut()
    }
}

} // verus!
