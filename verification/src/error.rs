//! Error types of the emulator.

use crate::text::{decimal_text, hex_text, push_decimal, push_hex};
use vstd::prelude::*;
use vstd::std_specs::convert::FromSpecImpl;
use vstd::string::StringExecFns;

verus! {

/// Everything that an emulator operation can fail with.
#[derive(Debug)]
pub enum EmulatorError {
    /// A memory access outside the address space while wraparound is off.
    InvalidMemoryAccess { address: u16 },
    /// An instruction word that matches no decode rule.
    UnknownInstruction { opcode: u16 },
    /// A program image that does not fit behind its start address.
    RomTooLarge { size: usize, max_size: usize },
    /// A program image without a single byte.
    RomEmpty,
    /// A push onto a full call stack.
    StackOverflow,
    /// A pop or peek on an empty call stack.
    StackUnderflow,
    /// A register index above 15.
    InvalidRegister { index: u8 },
    /// A failure of the audio sink.
    AudioError(AudioError),
    /// A failure of the graphics system.
    Graphics(GraphicsError),
    /// A failure of the input system.
    InputError(InputError),
    /// A rejected configuration.
    ConfigError(ConfigError),
}

/// Failures of an audio sink.
#[derive(Debug)]
pub enum AudioError {
    InitializationFailed,
    StreamError(String),
    UnsupportedFormat,
    DeviceNotAvailable,
}

/// Failures of the graphics system.
#[derive(Debug)]
pub enum GraphicsError {
    InitializationFailed,
    RenderError(String),
    InvalidCoordinates { x: u8, y: u8 },
    InvalidSpriteData,
    WindowCreationFailed(String),
    EventLoopCreationFailed(String),
    EventLoopRunFailed(String),
    PixelsInitializationFailed(String),
    ResizeFailed(String),
    RenderFailed(String),
    WindowClosed,
    InvalidBufferSize { expected: usize, actual: usize },
}

/// Failures of configuration handling.
#[derive(Debug)]
pub enum ConfigError {
    InvalidValue { key: String, value: String },
    MissingKey { key: String },
}

/// Failures of the input system.
#[derive(Debug)]
pub enum InputError {
    InvalidKey { key: u8 },
    MappingError(String),
    DeviceNotAvailable,
}

/// Result of an emulator operation.
pub type Result<T> = std::result::Result<T, EmulatorError>;

/// Result of an audio operation.
pub type AudioResult<T> = std::result::Result<T, AudioError>;

/// Result of a graphics operation.
pub type GraphicsResult<T> = std::result::Result<T, GraphicsError>;

/// Result of a configuration operation.
pub type ConfigResult<T> = std::result::Result<T, ConfigError>;

/// Result of an input operation.
pub type InputResult<T> = std::result::Result<T, InputError>;

impl AudioError {
    /// The message of this error.
    pub open spec fn message(&self) -> Seq<char> {
        match self {
            AudioError::InitializationFailed => "Failed to initialize audio device"@,
            AudioError::StreamError(detail) => "Audio stream error: "@ + detail@,
            AudioError::UnsupportedFormat => "Unsupported audio format"@,
            AudioError::DeviceNotAvailable => "Audio device not available"@,
        }
    }

    /// The message of this error.
    pub fn to_string(&self) -> (text: String)
        ensures
            text@ == self.message(),
    {
        match self {
            AudioError::InitializationFailed => String::from_str(
                "Failed to initialize audio device",
            ),
            AudioError::StreamError(detail) => String::from_str("Audio stream error: ").concat(
                detail.as_str(),
            ),
            AudioError::UnsupportedFormat => String::from_str("Unsupported audio format"),
            AudioError::DeviceNotAvailable => String::from_str("Audio device not available"),
        }
    }
}

impl GraphicsError {
    /// The message of this error.
    pub open spec fn message(&self) -> Seq<char> {
        match self {
            GraphicsError::InitializationFailed => "Failed to initialize graphics system"@,
            GraphicsError::RenderError(detail) => "Render error: "@ + detail@,
            GraphicsError::InvalidCoordinates { x, y } => "Invalid display coordinates: ("@
                + decimal_text(*x as nat) + ", "@ + decimal_text(*y as nat) + ")"@,
            GraphicsError::InvalidSpriteData => "Invalid sprite data"@,
            GraphicsError::WindowCreationFailed(detail) => "Window creation failed: "@ + detail@,
            GraphicsError::EventLoopCreationFailed(detail) => "Event loop creation failed: "@
                + detail@,
            GraphicsError::EventLoopRunFailed(detail) => "Event loop run failed: "@ + detail@,
            GraphicsError::PixelsInitializationFailed(detail) => "Pixels initialization failed: "@
                + detail@,
            GraphicsError::ResizeFailed(detail) => "Window resize failed: "@ + detail@,
            GraphicsError::RenderFailed(detail) => "Render failed: "@ + detail@,
            GraphicsError::WindowClosed => "Window closed"@,
            GraphicsError::InvalidBufferSize { expected, actual } =>
                "Invalid buffer size: expected "@ + decimal_text(*expected as nat) + ", got "@
                    + decimal_text(*actual as nat),
        }
    }

    /// The message of this error.
    pub fn to_string(&self) -> (text: String)
        ensures
            text@ == self.message(),
    {
        match self {
            GraphicsError::InitializationFailed => String::from_str(
                "Failed to initialize graphics system",
            ),
            GraphicsError::RenderError(detail) => String::from_str("Render error: ").concat(
                detail.as_str(),
            ),
            GraphicsError::InvalidCoordinates { x, y } => {
                let mut text = String::from_str("Invalid display coordinates: (");
                push_decimal(&mut text, *x as u64);
                text.append(", ");
                push_decimal(&mut text, *y as u64);
                text.append(")");
                text
            },
            GraphicsError::InvalidSpriteData => String::from_str("Invalid sprite data"),
            GraphicsError::WindowCreationFailed(detail) => String::from_str(
                "Window creation failed: ",
            ).concat(detail.as_str()),
            GraphicsError::EventLoopCreationFailed(detail) => String::from_str(
                "Event loop creation failed: ",
            ).concat(detail.as_str()),
            GraphicsError::EventLoopRunFailed(detail) => String::from_str(
                "Event loop run failed: ",
            ).concat(detail.as_str()),
            GraphicsError::PixelsInitializationFailed(detail) => String::from_str(
                "Pixels initialization failed: ",
            ).concat(detail.as_str()),
            GraphicsError::ResizeFailed(detail) => String::from_str(
                "Window resize failed: ",
            ).concat(detail.as_str()),
            GraphicsError::RenderFailed(detail) => String::from_str("Render failed: ").concat(
                detail.as_str(),
            ),
            GraphicsError::WindowClosed => String::from_str("Window closed"),
            GraphicsError::InvalidBufferSize { expected, actual } => {
                let mut text = String::from_str("Invalid buffer size: expected ");
                push_decimal(&mut text, *expected as u64);
                text.append(", got ");
                push_decimal(&mut text, *actual as u64);
                text
            },
        }
    }
}

impl ConfigError {
    /// The message of this error.
    pub open spec fn message(&self) -> Seq<char> {
        match self {
            ConfigError::InvalidValue { key, value } => "Invalid configuration value for '"@
                + key@ + "': "@ + value@,
            ConfigError::MissingKey { key } => "Missing required configuration key: "@ + key@,
        }
    }

    /// The message of this error.
    pub fn to_string(&self) -> (text: String)
        ensures
            text@ == self.message(),
    {
        match self {
            ConfigError::InvalidValue { key, value } => {
                let mut text = String::from_str("Invalid configuration value for '");
                text.append(key.as_str());
                text.append("': ");
                text.append(value.as_str());
                text
            },
            ConfigError::MissingKey { key } => String::from_str(
                "Missing required configuration key: ",
            ).concat(key.as_str()),
        }
    }
}

impl InputError {
    /// The message of this error.
    pub open spec fn message(&self) -> Seq<char> {
        match self {
            InputError::InvalidKey { key } => "Invalid key code: "@ + decimal_text(*key as nat),
            InputError::MappingError(detail) => "Key mapping error: "@ + detail@,
            InputError::DeviceNotAvailable => "Input device not available"@,
        }
    }

    /// The message of this error.
    pub fn to_string(&self) -> (text: String)
        ensures
            text@ == self.message(),
    {
        match self {
            InputError::InvalidKey { key } => {
                let mut text = String::from_str("Invalid key code: ");
                push_decimal(&mut text, *key as u64);
                text
            },
            InputError::MappingError(detail) => String::from_str("Key mapping error: ").concat(
                detail.as_str(),
            ),
            InputError::DeviceNotAvailable => String::from_str("Input device not available"),
        }
    }
}

impl EmulatorError {
    /// The message of this error. Addresses and instruction words are
    /// written in hexadecimal, sizes and indices in decimal.
    pub open spec fn message(&self) -> Seq<char> {
        match self {
            EmulatorError::InvalidMemoryAccess { address } =>
                "Invalid memory access at address "@ + hex_text(*address as nat),
            EmulatorError::UnknownInstruction { opcode } => "Unknown instruction "@ + hex_text(
                *opcode as nat,
            ),
            EmulatorError::RomTooLarge { size, max_size } => "ROM file too large: "@
                + decimal_text(*size as nat) + " bytes (max "@ + decimal_text(*max_size as nat)
                + ")"@,
            EmulatorError::RomEmpty => "ROM file is empty"@,
            EmulatorError::StackOverflow => "Stack overflow"@,
            EmulatorError::StackUnderflow => "Stack underflow"@,
            EmulatorError::InvalidRegister { index } => "Invalid register index: "@
                + decimal_text(*index as nat),
            EmulatorError::AudioError(inner) => "Audio system error: "@ + inner.message(),
            EmulatorError::Graphics(inner) => "Graphics system error: "@ + inner.message(),
            EmulatorError::InputError(inner) => "Input system error: "@ + inner.message(),
            EmulatorError::ConfigError(inner) => "Configuration error: "@ + inner.message(),
        }
    }

    /// The message of this error.
    pub fn to_string(&self) -> (text: String)
        ensures
            text@ == self.message(),
    {
        match self {
            EmulatorError::InvalidMemoryAccess { address } => {
                let mut text = String::from_str("Invalid memory access at address ");
                push_hex(&mut text, *address);
                text
            },
            EmulatorError::UnknownInstruction { opcode } => {
                let mut text = String::from_str("Unknown instruction ");
                push_hex(&mut text, *opcode);
                text
            },
            EmulatorError::RomTooLarge { size, max_size } => {
                let mut text = String::from_str("ROM file too large: ");
                push_decimal(&mut text, *size as u64);
                text.append(" bytes (max ");
                push_decimal(&mut text, *max_size as u64);
                text.append(")");
                text
            },
            EmulatorError::RomEmpty => String::from_str("ROM file is empty"),
            EmulatorError::StackOverflow => String::from_str("Stack overflow"),
            EmulatorError::StackUnderflow => String::from_str("Stack underflow"),
            EmulatorError::InvalidRegister { index } => {
                let mut text = String::from_str("Invalid register index: ");
                push_decimal(&mut text, *index as u64);
                text
            },
            EmulatorError::AudioError(inner) => String::from_str("Audio system error: ").concat(
                inner.to_string().as_str(),
            ),
            EmulatorError::Graphics(inner) => String::from_str("Graphics system error: ").concat(
                inner.to_string().as_str(),
            ),
            EmulatorError::InputError(inner) => String::from_str("Input system error: ").concat(
                inner.to_string().as_str(),
            ),
            EmulatorError::ConfigError(inner) => String::from_str("Configuration error: ").concat(
                inner.to_string().as_str(),
            ),
        }
    }
}

impl From<AudioError> for EmulatorError {
    fn from(err: AudioError) -> (error: Self) {
        EmulatorError::AudioError(err)
    }
}

impl FromSpecImpl<AudioError> for EmulatorError {
    open spec fn obeys_from_spec() -> bool {
        true
    }

    open spec fn from_spec(err: AudioError) -> Self {
        EmulatorError::AudioError(err)
    }
}

impl From<GraphicsError> for EmulatorError {
    fn from(err: GraphicsError) -> (error: Self) {
        EmulatorError::Graphics(err)
    }
}

impl FromSpecImpl<GraphicsError> for EmulatorError {
    open spec fn obeys_from_spec() -> bool {
        true
    }

    open spec fn from_spec(err: GraphicsError) -> Self {
        EmulatorError::Graphics(err)
    }
}

impl From<InputError> for EmulatorError {
    fn from(err: InputError) -> (error: Self) {
        EmulatorError::InputError(err)
    }
}

impl FromSpecImpl<InputError> for EmulatorError {
    open spec fn obeys_from_spec() -> bool {
        true
    }

    open spec fn from_spec(err: InputError) -> Self {
        EmulatorError::InputError(err)
    }
}

impl From<ConfigError> for EmulatorError {
    fn from(err: ConfigError) -> (error: Self) {
        EmulatorError::ConfigError(err)
    }
}

impl FromSpecImpl<ConfigError> for EmulatorError {
    open spec fn obeys_from_spec() -> bool {
        true
    }

    open spec fn from_spec(err: ConfigError) -> Self {
        EmulatorError::ConfigError(err)
    }
}

} // verus!
