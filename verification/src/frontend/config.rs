//! Settings of the emulator.

use crate::error::ConfigError;
use crate::graphics::renderer::{amber_color, default_graphics, green_color, GraphicsConfig};
use crate::input::keyboard::{default_keyboard, KeyboardConfig};
use crate::text::{decimal, decimal_text, lowercase, lowercase_text, reads};
use vstd::prelude::*;
use vstd::string::StringExecFns;

verus! {

/// How the machine behaves where interpreters differ.
#[derive(Debug, Clone)]
pub struct EmulatorBehaviorConfig {
    /// Instructions per second.
    pub cpu_speed: u32,
    /// Whether memory addresses past the end wrap around.
    pub memory_wraparound: bool,
    /// Whether bounds are checked strictly.
    pub strict_bounds: bool,
    /// Timer ticks per second.
    pub timer_frequency: u32,
}

impl Default for EmulatorBehaviorConfig {
    fn default() -> (config: Self)
        ensures
            config == (EmulatorBehaviorConfig {
                cpu_speed: 700,
                memory_wraparound: false,
                strict_bounds: true,
                timer_frequency: 60,
            }),
    {
        Self { cpu_speed: 700, memory_wraparound: false, strict_bounds: true, timer_frequency: 60 }
    }
}

impl EmulatorBehaviorConfig {
    /// The behaviour of the classic interpreters: slower, with memory
    /// wraparound and without strict bounds.
    pub fn classic() -> (config: Self)
        ensures
            config == (EmulatorBehaviorConfig {
                cpu_speed: 500,
                memory_wraparound: true,
                strict_bounds: false,
                timer_frequency: 60,
            }),
    {
        Self { cpu_speed: 500, memory_wraparound: true, strict_bounds: false, timer_frequency: 60 }
    }

    /// The behaviour of modern interpreters: the default.
    pub fn modern() -> (config: Self)
        ensures
            config == (EmulatorBehaviorConfig {
                cpu_speed: 700,
                memory_wraparound: false,
                strict_bounds: true,
                timer_frequency: 60,
            }),
    {
        Self { cpu_speed: 700, memory_wraparound: false, strict_bounds: true, timer_frequency: 60 }
    }
}

/// What the debugger does.
#[derive(Debug, Clone)]
pub struct DebugConfig {
    /// Whether debugging is on.
    pub enabled: bool,
    /// Whether execution stops at an error.
    pub break_on_error: bool,
    /// Whether instructions are logged.
    pub log_instructions: bool,
}

impl Default for DebugConfig {
    fn default() -> (config: Self)
        ensures
            config == (DebugConfig {
                enabled: false,
                break_on_error: false,
                log_instructions: false,
            }),
    {
        Self { enabled: false, break_on_error: false, log_instructions: false }
    }
}

/// The greatest scale factor that a valid configuration may ask for.
pub const MAX_CONFIG_SCALE: u32 = 20;

/// The greatest polling rate that a valid configuration may ask for.
pub const MAX_POLLING_RATE: u32 = 1000;

/// What is wrong with a number under a key: the key and the number in
/// decimal.
pub open spec fn is_invalid_number(error: ConfigError, key: Seq<char>, number: nat) -> bool {
    error matches ConfigError::InvalidValue { key: k, value: v } && k@ == key && v@
        == decimal_text(number)
}

/// Checks the graphics settings: the scale factor must lie between 1 and
/// `MAX_CONFIG_SCALE`.
pub fn validate_graphics(graphics: &GraphicsConfig) -> (result: Result<(), ConfigError>)
    ensures
        1 <= graphics.scale_factor <= 20 ==> result is Ok,
        !(1 <= graphics.scale_factor <= 20) ==> result is Err && is_invalid_number(
            result->Err_0,
            "graphics.scale_factor"@,
            graphics.scale_factor as nat,
        ),
{
    if graphics.scale_factor == 0 || graphics.scale_factor > MAX_CONFIG_SCALE {
        return Err(
            ConfigError::InvalidValue {
                key: String::from_str("graphics.scale_factor"),
                value: decimal(graphics.scale_factor as u64),
            },
        );
    }
    Ok(())
}

/// Checks the keyboard settings: the polling rate must lie between 1 and
/// `MAX_POLLING_RATE`.
pub fn validate_keyboard(keyboard: &KeyboardConfig) -> (result: Result<(), ConfigError>)
    ensures
        1 <= keyboard.polling_rate <= 1000 ==> result is Ok,
        !(1 <= keyboard.polling_rate <= 1000) ==> result is Err && is_invalid_number(
            result->Err_0,
            "keyboard.polling_rate"@,
            keyboard.polling_rate as nat,
        ),
{
    if keyboard.polling_rate == 0 || keyboard.polling_rate > MAX_POLLING_RATE {
        return Err(
            ConfigError::InvalidValue {
                key: String::from_str("keyboard.polling_rate"),
                value: decimal(keyboard.polling_rate as u64),
            },
        );
    }
    Ok(())
}

/// The text of the sample configuration file.
pub const SAMPLE_CONFIG: &'static str =
    "# Chip-8 Emulator Configuration File\n# This file contains all configurable options for the emulator\n\n[graphics]\n# Foreground color for \"on\" pixels (RGB values)\nforeground_color = { r = 0, g = 255, b = 0, a = 255 }  # Green\n\n# Background color for \"off\" pixels (RGB values)\nbackground_color = { r = 0, g = 0, b = 0, a = 255 }    # Black\n\n# Scale factor for the display (1-20)\nscale_factor = 10\n\n# Enable smooth scaling\nsmooth_scaling = false\n\n# Maintain aspect ratio when resizing\nmaintain_aspect_ratio = true\n\n[audio]\n# Buzzer frequency in Hz\nfrequency = 440.0\n\n# Volume level (0.0 = silent, 1.0 = full volume)\nvolume = 0.3\n\n# Sample rate for audio generation\nsample_rate = 44100\n\n# Waveform type: \"Sine\", \"Square\", \"Sawtooth\", or \"Triangle\"\nwaveform = \"Square\"\n\n[keyboard]\n# Enable keyboard event capture\ncapture_enabled = true\n\n# Polling rate in Hz for keyboard updates\npolling_rate = 60\n\n# Handle key repeat events\nhandle_repeats = false\n\n# Minimum time between repeats in milliseconds\nrepeat_delay = 500\n\n# Use raw keyboard input (may reduce latency)\nuse_raw_input = false\n\n[debug]\n# Enable debug mode\nenabled = false\n\n# Break execution on CPU errors\nbreak_on_error = false\n\n# Log CPU instructions to console\nlog_instructions = false\n";

/// A configuration file with every setting and a comment on each.
pub fn create_sample_config() -> (sample: String)
    ensures
        sample@ == SAMPLE_CONFIG@,
{
    String::from_str(SAMPLE_CONFIG)
}

/// The profiles of settings that have a name.
pub struct ConfigProfiles;

/// The description of the profile with this name in lower case, if there
/// is such a profile.
pub open spec fn description_of(lowered: Seq<char>) -> Option<&'static str> {
    if lowered == "default"@ {
        Some("Default configuration with balanced settings")
    } else if lowered == "gaming"@ {
        Some("Optimized for gaming with high performance settings")
    } else if lowered == "development"@ {
        Some("Development-friendly with debugging enabled")
    } else if lowered == "retro"@ {
        Some("Classic retro styling with amber colors")
    } else {
        None
    }
}

/// A profile of settings.
#[derive(Debug, Clone, Copy, PartialEq, Eq, Structural)]
pub enum Profile {
    /// Balanced settings.
    Default,
    /// Settings for games.
    Gaming,
    /// Settings for work on programs: the debugger is on.
    Development,
    /// The looks of old: amber on black.
    Retro,
}

/// The settings of a profile, but for those of the buzzer.
#[derive(Debug, Clone)]
pub struct ProfileSettings {
    /// How the machine behaves.
    pub behavior: EmulatorBehaviorConfig,
    /// How the display is shown.
    pub graphics: GraphicsConfig,
    /// How the keyboard is read.
    pub keyboard: KeyboardConfig,
    /// What the debugger does.
    pub debug: DebugConfig,
}

/// The behaviour of the classic interpreters.
pub open spec fn classic_behavior() -> EmulatorBehaviorConfig {
    EmulatorBehaviorConfig {
        cpu_speed: 500,
        memory_wraparound: true,
        strict_bounds: false,
        timer_frequency: 60,
    }
}

/// The behaviour of modern interpreters.
pub open spec fn modern_behavior() -> EmulatorBehaviorConfig {
    EmulatorBehaviorConfig {
        cpu_speed: 700,
        memory_wraparound: false,
        strict_bounds: true,
        timer_frequency: 60,
    }
}

/// The keyboard settings for the desktop.
pub open spec fn desktop_keyboard() -> KeyboardConfig {
    KeyboardConfig { handle_repeats: true, ..default_keyboard() }
}

/// The keyboard settings for games.
pub open spec fn gaming_keyboard() -> KeyboardConfig {
    KeyboardConfig { polling_rate: 120, use_raw_input: true, ..default_keyboard() }
}

impl Profile {
    /// What this profile sets.
    pub open spec fn settings_of(self) -> ProfileSettings {
        match self {
            Profile::Default => ProfileSettings {
                behavior: modern_behavior(),
                graphics: GraphicsConfig { foreground_color: green_color(), ..default_graphics() },
                keyboard: desktop_keyboard(),
                debug: DebugConfig {
                    enabled: false,
                    break_on_error: false,
                    log_instructions: false,
                },
            },
            Profile::Gaming => ProfileSettings {
                behavior: modern_behavior(),
                graphics: GraphicsConfig { scale_factor: 12, ..default_graphics() },
                keyboard: gaming_keyboard(),
                debug: DebugConfig {
                    enabled: false,
                    break_on_error: false,
                    log_instructions: false,
                },
            },
            Profile::Development => ProfileSettings {
                behavior: modern_behavior(),
                graphics: GraphicsConfig {
                    foreground_color: green_color(),
                    scale_factor: 8,
                    smooth_scaling: true,
                    ..default_graphics()
                },
                keyboard: desktop_keyboard(),
                debug: DebugConfig { enabled: true, break_on_error: true, log_instructions: true },
            },
            Profile::Retro => ProfileSettings {
                behavior: classic_behavior(),
                graphics: GraphicsConfig { foreground_color: amber_color(), ..default_graphics() },
                keyboard: desktop_keyboard(),
                debug: DebugConfig {
                    enabled: false,
                    break_on_error: false,
                    log_instructions: false,
                },
            },
        }
    }

    /// What this profile sets.
    pub fn settings(self) -> (settings: ProfileSettings)
        ensures
            settings == self.settings_of(),
    {
        match self {
            Profile::Default => ProfileSettings {
                behavior: EmulatorBehaviorConfig::default(),
                graphics: GraphicsConfig::classic_green(),
                keyboard: KeyboardConfig::desktop(),
                debug: DebugConfig::default(),
            },
            Profile::Gaming => ProfileSettings {
                behavior: EmulatorBehaviorConfig::modern(),
                graphics: GraphicsConfig::high_contrast().with_scale_factor(
                    12,
                ).with_smooth_scaling(false),
                keyboard: KeyboardConfig::gaming(),
                debug: DebugConfig {
                    enabled: false,
                    break_on_error: false,
                    log_instructions: false,
                },
            },
            Profile::Development => ProfileSettings {
                behavior: EmulatorBehaviorConfig::modern(),
                graphics: GraphicsConfig::classic_green().with_scale_factor(8).with_smooth_scaling(
                    true,
                ),
                keyboard: KeyboardConfig::desktop(),
                debug: DebugConfig { enabled: true, break_on_error: true, log_instructions: true },
            },
            Profile::Retro => ProfileSettings {
                behavior: EmulatorBehaviorConfig::classic(),
                graphics: GraphicsConfig::classic_amber().with_scale_factor(
                    10,
                ).with_smooth_scaling(false),
                keyboard: KeyboardConfig::desktop(),
                debug: DebugConfig::default(),
            },
        }
    }
}

impl ProfileSettings {
    /// Whether the scale factor and the polling rate lie in their ranges.
    pub open spec fn is_valid(&self) -> bool {
        1 <= self.graphics.scale_factor <= 20 && 1 <= self.keyboard.polling_rate <= 1000
    }

    /// Checks the settings, graphics first and keyboard second, and
    /// reports the first number that lies outside its range.
    pub fn validate(&self) -> (result: Result<(), ConfigError>)
        ensures
            self.is_valid() <==> result is Ok,
            !(1 <= self.graphics.scale_factor <= 20) ==> result is Err && is_invalid_number(
                result->Err_0,
                "graphics.scale_factor"@,
                self.graphics.scale_factor as nat,
            ),
            1 <= self.graphics.scale_factor <= 20 && !(1 <= self.keyboard.polling_rate <= 1000)
                ==> result is Err && is_invalid_number(
                result->Err_0,
                "keyboard.polling_rate"@,
                self.keyboard.polling_rate as nat,
            ),
    {
        validate_graphics(&self.graphics)?;
        validate_keyboard(&self.keyboard)
    }

    /// Takes the settings of graphics, keyboard and debugger from `other`.
    /// How the machine behaves stays as it is.
    pub fn merge(&mut self, other: &Self)
        ensures
            *final(self) == (ProfileSettings { behavior: old(self).behavior, ..*other }),
    {
        self.graphics = GraphicsConfig {
            foreground_color: other.graphics.foreground_color,
            background_color: other.graphics.background_color,
            scale_factor: other.graphics.scale_factor,
            smooth_scaling: other.graphics.smooth_scaling,
            maintain_aspect_ratio: other.graphics.maintain_aspect_ratio,
        };
        self.keyboard = KeyboardConfig {
            capture_enabled: other.keyboard.capture_enabled,
            polling_rate: other.keyboard.polling_rate,
            handle_repeats: other.keyboard.handle_repeats,
            repeat_delay: other.keyboard.repeat_delay,
            use_raw_input: other.keyboard.use_raw_input,
        };
        self.debug = DebugConfig {
            enabled: other.debug.enabled,
            break_on_error: other.debug.break_on_error,
            log_instructions: other.debug.log_instructions,
        };
    }
}

/// Law: what a profile sets is valid.
pub proof fn lemma_profiles_are_valid(profile: Profile)
    ensures
        profile.settings_of().is_valid(),
{
}

/// The profile with this name in lower case, if there is such a profile.
/// Two of the profiles have a second name.
pub open spec fn profile_named(lowered: Seq<char>) -> Option<Profile> {
    if lowered == "default"@ {
        Some(Profile::Default)
    } else if lowered == "gaming"@ {
        Some(Profile::Gaming)
    } else if lowered == "development"@ || lowered == "dev"@ {
        Some(Profile::Development)
    } else if lowered == "retro"@ || lowered == "classic"@ {
        Some(Profile::Retro)
    } else {
        None
    }
}

/// What is wrong with a text under a key: the key and the text.
pub open spec fn is_invalid_text(error: ConfigError, key: Seq<char>, text: Seq<char>) -> bool {
    error matches ConfigError::InvalidValue { key: k, value: v } && k@ == key && v@ == text
}

impl ConfigProfiles {
    /// The profile with the name `lowered`, which must be in lower case.
    pub fn profile_of_lowered(lowered: &str) -> (profile: Option<Profile>)
        ensures
            profile == profile_named(lowered@),
    {
        if reads(lowered, "default") {
            Some(Profile::Default)
        } else if reads(lowered, "gaming") {
            Some(Profile::Gaming)
        } else if reads(lowered, "development") || reads(lowered, "dev") {
            Some(Profile::Development)
        } else if reads(lowered, "retro") || reads(lowered, "classic") {
            Some(Profile::Retro)
        } else {
            None
        }
    }

    /// The profile with the name `name`, in whatever case it is written.
    /// A name that no profile has is reported as an invalid value of
    /// `profile`.
    pub fn from_name(name: &str) -> (result: Result<Profile, ConfigError>)
        ensures
            match profile_named(lowercase_text(name@)) {
                Some(profile) => result == Ok::<Profile, ConfigError>(profile),
                None => result is Err && is_invalid_text(result->Err_0, "profile"@, name@),
            },
    {
        let lowered = lowercase(name);
        match Self::profile_of_lowered(lowered.as_str()) {
            Some(profile) => Ok(profile),
            None => Err(
                ConfigError::InvalidValue {
                    key: String::from_str("profile"),
                    value: String::from_str(name),
                },
            ),
        }
    }

    /// The names of the profiles.
    pub fn available_profiles() -> (names: Vec<&'static str>)
        ensures
            names@.len() == 4,
            names@[0]@ == "default"@,
            names@[1]@ == "gaming"@,
            names@[2]@ == "development"@,
            names@[3]@ == "retro"@,
    {
        let mut names: Vec<&'static str> = Vec::new();
        names.push("default");
        names.push("gaming");
        names.push("development");
        names.push("retro");
        names
    }

    /// The description of the profile with the name `lowered`, which must
    /// be in lower case.
    pub fn description_of_lowered(lowered: &str) -> (description: Option<&'static str>)
        ensures
            description == description_of(lowered@),
    {
        if reads(lowered, "default") {
            Some("Default configuration with balanced settings")
        } else if reads(lowered, "gaming") {
            Some("Optimized for gaming with high performance settings")
        } else if reads(lowered, "development") {
            Some("Development-friendly with debugging enabled")
        } else if reads(lowered, "retro") {
            Some("Classic retro styling with amber colors")
        } else {
            None
        }
    }

    /// The description of the profile with the name `name`, in whatever
    /// case it is written.
    pub fn profile_description(name: &str) -> (description: Option<&'static str>)
        ensures
            description == description_of(lowercase_text(name@)),
    {
        let lowered = lowercase(name);
        Self::description_of_lowered(lowered.as_str())
    }
}

/// The settings that the environment can override.
pub struct EnvConfig;

/// The value of a decimal digit, if the character is one.
pub open spec fn decimal_digit(c: char) -> Option<nat> {
    if '0' <= c <= '9' {
        Some((c as u32 - '0' as u32) as nat)
    } else {
        None
    }
}

/// The number that a text of decimal digits writes, if every character
/// is a digit. The empty text writes zero.
pub open spec fn decimal_value(digits: Seq<char>) -> Option<nat>
    decreases digits.len(),
{
    if digits.len() == 0 {
        Some(0)
    } else {
        match (decimal_value(digits.drop_last()), decimal_digit(digits.last())) {
            (Some(front), Some(last)) => Some(front * 10 + last),
            _ => None,
        }
    }
}

/// The scale factor that a text asks for: a number between 1 and
/// `MAX_CONFIG_SCALE`, written in decimal digits, with a plus sign before
/// it or without.
pub open spec fn scale_written(text: Seq<char>) -> Option<u32> {
    let digits = if text.len() > 0 && text[0] == '+' {
        text.drop_first()
    } else {
        text
    };
    if digits.len() == 0 {
        None
    } else {
        match decimal_value(digits) {
            Some(value) if 1 <= value <= 20 => Some(value as u32),
            _ => None,
        }
    }
}

/// The value of a text of digits is never below the value of a front
/// part of it.
pub proof fn lemma_decimal_value_grows(digits: Seq<char>, front: int)
    requires
        0 <= front <= digits.len(),
        decimal_value(digits) is Some,
    ensures
        decimal_value(digits.take(front)) is Some,
        decimal_value(digits.take(front))->0 <= decimal_value(digits)->0,
    decreases digits.len() - front,
{
    if front == digits.len() {
        assert(digits.take(front) =~= digits);
    } else {
        lemma_decimal_value_grows(digits.drop_last(), front);
        assert(digits.drop_last().take(front) =~= digits.take(front));
    }
}

impl EnvConfig {
    /// The scale factor that the value of `CHIP8_SCALE` asks for, if it
    /// asks for a valid one. Any other value changes nothing.
    pub fn scale_override(value: &str) -> (scale: Option<u32>)
        ensures
            scale == scale_written(value@),
    {
        let len = value.unicode_len();
        let start: usize = if len > 0 && value.get_char(0) == '+' {
            1
        } else {
            0
        };
        let ghost digits = value@.subrange(start as int, len as int);
        proof {
            assert(value@.subrange(0, len as int) =~= value@);
            assert(value@.subrange(1, len as int) =~= value@.drop_first());
        }
        if start == len {
            return None;
        }
        let mut number: u32 = 0;
        let mut i: usize = start;
        proof {
            assert(digits.take(0) =~= Seq::<char>::empty());
        }
        while i < len
            invariant
                start <= i <= len,
                len == value@.len(),
                digits == value@.subrange(start as int, len as int),
                digits.len() > 0,
                scale_written(value@) == (match decimal_value(digits) {
                    Some(written) if 1 <= written <= 20 => Some(written as u32),
                    _ => None,
                }),
                decimal_value(digits.take(i - start)) == Some(number as nat),
                number <= 20,
            decreases len - i,
        {
            let c = value.get_char(i);
            let ghost next = digits.take(i - start + 1);
            proof {
                assert(next.drop_last() =~= digits.take(i - start));
                assert(next.last() == c);
                if decimal_value(digits) is Some {
                    lemma_decimal_value_grows(digits, i - start + 1);
                }
            }
            if c < '0' || c > '9' {
                assert(decimal_value(next) is None);
                return None;
            }
            let digit = (c as u32) - ('0' as u32);
            number = number * 10 + digit;
            assert(decimal_value(next) == Some(number as nat));
            if number > MAX_CONFIG_SCALE {
                return None;
            }
            i += 1;
        }
        proof {
            assert(digits.take(len - start) =~= digits);
        }
        if number == 0 {
            None
        } else {
            Some(number)
        }
    }

    /// The variables of the environment that override settings, each with
    /// what it means.
    pub fn available_env_vars() -> (vars: Vec<(&'static str, &'static str)>)
        ensures
            vars@.len() == 5,
            vars@[0].0@ == "CHIP8_SCALE"@,
            vars@[1].0@ == "CHIP8_VOLUME"@,
            vars@[2].0@ == "CHIP8_FREQUENCY"@,
            vars@[3].0@ == "CHIP8_DEBUG"@,
            vars@[4].0@ == "CHIP8_VERBOSE"@,
            vars@[0].1@ == "Display scale factor (1-20)"@,
            vars@[1].1@ == "Audio volume (0.0-1.0)"@,
            vars@[2].1@ == "Buzzer frequency in Hz"@,
            vars@[3].1@ == "Enable debug mode (any value)"@,
            vars@[4].1@ == "Enable verbose logging (any value)"@,
    {
        let mut vars: Vec<(&'static str, &'static str)> = Vec::new();
        vars.push(("CHIP8_SCALE", "Display scale factor (1-20)"));
        vars.push(("CHIP8_VOLUME", "Audio volume (0.0-1.0)"));
        vars.push(("CHIP8_FREQUENCY", "Buzzer frequency in Hz"));
        vars.push(("CHIP8_DEBUG", "Enable debug mode (any value)"));
        vars.push(("CHIP8_VERBOSE", "Enable verbose logging (any value)"));
        vars
    }
}

} // verus!
