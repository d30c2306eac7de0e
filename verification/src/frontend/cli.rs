//! What the command line asks for, and the checks that it makes before
//! anything runs.

use crate::error::{ConfigError, EmulatorError};
use crate::graphics::renderer::Color;
use std::path::PathBuf;
use vstd::prelude::*;
use vstd::string::{StrSliceExecFns, StringExecFns};
use vstd::utf8::encode_utf8;

verus! {

/// `std::path::PathBuf`, the path of a file.
#[verifier::external_type_specification]
#[verifier::external_body]
pub struct ExPathBuf(PathBuf);

/// What the command line asks for.
pub struct CliApp {
    /// The program to load and run.
    pub rom_file: Option<PathBuf>,
    /// Whether to say more.
    pub verbose: bool,
    /// The configuration file.
    pub config: Option<PathBuf>,
    /// The name of a profile of settings.
    pub profile: Option<String>,
    /// The command, if one is given.
    pub command: Option<Commands>,
}

/// The commands of the command line.
pub enum Commands {
    /// Says what a program file holds.
    Info { rom_file: PathBuf },
    /// Checks a program file.
    Validate { rom_file: PathBuf },
    /// Runs a program for a number of cycles and saves what the display
    /// shows.
    Screenshot {
        rom_file: PathBuf,
        output: PathBuf,
        cycles: u32,
        scale: u32,
        foreground: String,
        background: String,
    },
}

/// What a look at a program image finds.
#[derive(Debug, Clone, Copy, PartialEq, Eq, Structural)]
pub struct RomCheck {
    /// The image holds no byte.
    pub empty: bool,
    /// The image does not fit behind the usual start address.
    pub too_large: bool,
    /// One of the image's instruction words is not zero.
    pub has_instructions: bool,
}

impl RomCheck {
    /// Whether the image can be loaded.
    pub fn passed(&self) -> (passed: bool)
        ensures
            passed == (!self.empty && !self.too_large),
    {
        !self.empty && !self.too_large
    }
}

/// Whether one of the whole instruction words of an image, read two bytes
/// at a time from its start, is not zero.
pub open spec fn holds_instruction(rom: Seq<u8>) -> bool {
    exists|word: int|
        0 <= word && 2 * word + 1 < rom.len() && (#[trigger] rom[2 * word] != 0 || rom[2 * word
            + 1] != 0)
}

/// Looks at a program image.
pub fn check_rom(rom_data: &[u8]) -> (check: RomCheck)
    ensures
        check.empty == (rom_data@.len() == 0),
        check.too_large == (rom_data@.len() > 3584),
        check.has_instructions == holds_instruction(rom_data@),
{
    let mut has_instructions = false;
    let mut word: usize = 0;
    while !has_instructions && word < rom_data.len() / 2
        invariant
            word <= rom_data@.len() / 2,
            has_instructions ==> holds_instruction(rom_data@),
            !has_instructions ==> forall|w: int|
                0 <= w < word ==> #[trigger] rom_data@[2 * w] == 0 && rom_data@[2 * w + 1] == 0,
        decreases rom_data@.len() / 2 - word + (if has_instructions {
            0int
        } else {
            1int
        }),
    {
        if rom_data[2 * word] != 0 || rom_data[2 * word + 1] != 0 {
            has_instructions = true;
        } else {
            word += 1;
        }
    }
    RomCheck {
        empty: rom_data.len() == 0,
        too_large: rom_data.len() > 3584,
        has_instructions,
    }
}

/// A text without the number signs at its start.
pub open spec fn without_number_signs(text: Seq<char>) -> Seq<char>
    decreases text.len(),
{
    if text.len() > 0 && text[0] == '#' {
        without_number_signs(text.drop_first())
    } else {
        text
    }
}

/// The value of a hexadecimal digit in ASCII, in either case.
pub open spec fn hex_digit_value(byte: u8) -> Option<u8> {
    if 0x30 <= byte <= 0x39 {
        Some((byte - 0x30) as u8)
    } else if 0x41 <= byte <= 0x46 {
        Some((byte - 0x41 + 10) as u8)
    } else if 0x61 <= byte <= 0x66 {
        Some((byte - 0x61 + 10) as u8)
    } else {
        None
    }
}

/// The value of a channel written in two bytes: two hexadecimal digits,
/// or a plus sign and one hexadecimal digit.
pub open spec fn channel_value(high: u8, low: u8) -> Option<u8> {
    match (hex_digit_value(high), hex_digit_value(low)) {
        (Some(h), Some(l)) => Some((h * 16 + l) as u8),
        (None, Some(l)) if high == 0x2B => Some(l),
        _ => None,
    }
}

/// The colour that six bytes write: red, green and blue, two bytes each.
pub open spec fn color_written(bytes: Seq<u8>) -> Option<Color> {
    if bytes.len() != 6 {
        None
    } else {
        match (
            channel_value(bytes[0], bytes[1]),
            channel_value(bytes[2], bytes[3]),
            channel_value(bytes[4], bytes[5]),
        ) {
            (Some(r), Some(g), Some(b)) => Some(Color { r, g, b, a: 255 }),
            _ => None,
        }
    }
}

/// Whether `error` says that `value` is no colour.
pub open spec fn is_invalid_color(error: EmulatorError, value: Seq<char>) -> bool {
    error matches EmulatorError::ConfigError(ConfigError::InvalidValue { key: k, value: v })
        && k@ == "color"@ && v@ == value
}

/// The value of a hexadecimal digit.
fn hex_digit(byte: u8) -> (value: Option<u8>)
    ensures
        value == hex_digit_value(byte),
{
    if 0x30 <= byte && byte <= 0x39 {
        Some(byte - 0x30)
    } else if 0x41 <= byte && byte <= 0x46 {
        Some(byte - 0x41 + 10)
    } else if 0x61 <= byte && byte <= 0x66 {
        Some(byte - 0x61 + 10)
    } else {
        None
    }
}

/// The value of a channel written in two bytes.
fn channel(high: u8, low: u8) -> (value: Option<u8>)
    ensures
        value == channel_value(high, low),
{
    match hex_digit(low) {
        Some(l) => match hex_digit(high) {
            Some(h) => Some(h * 16 + l),
            None => if high == 0x2B {
                Some(l)
            } else {
                None
            },
        },
        None => None,
    }
}

/// Reads a colour written as six hexadecimal digits, red first, with
/// number signs before them or without: `FF0000` and `#ff0000` are red.
/// The colour is opaque. Anything else is refused, with the text behind
/// the number signs as the value that is at fault.
pub fn parse_hex_color(hex: &str) -> (result: Result<Color, EmulatorError>)
    ensures
        match color_written(encode_utf8(without_number_signs(hex@))) {
            Some(color) => result == Ok::<Color, EmulatorError>(color),
            None => result is Err && is_invalid_color(
                result->Err_0,
                without_number_signs(hex@),
            ),
        },
{
    let len = hex.unicode_len();
    let mut start: usize = 0;
    proof {
        assert(hex@.subrange(0, len as int) =~= hex@);
    }
    while start < len && hex.get_char(start) == '#'
        invariant
            start <= len,
            len == hex@.len(),
            without_number_signs(hex@) == without_number_signs(
                hex@.subrange(start as int, len as int),
            ),
        decreases len - start,
    {
        proof {
            let rest = hex@.subrange(start as int, len as int);
            assert(rest.drop_first() =~= hex@.subrange(start + 1, len as int));
        }
        start += 1;
    }
    let digits = hex.substring_char(start, len);
    let bytes = digits.as_bytes();
    if bytes.len() == 6 {
        match (
            channel(bytes[0], bytes[1]),
            channel(bytes[2], bytes[3]),
            channel(bytes[4], bytes[5]),
        ) {
            (Some(r), Some(g), Some(b)) => {
                return Ok(Color::rgb(r, g, b));
            },
            _ => {},
        }
    }
    Err(
        EmulatorError::ConfigError(
            ConfigError::InvalidValue {
                key: String::from_str("color"),
                value: String::from_str(digits),
            },
        ),
    )
}

} // verus!
