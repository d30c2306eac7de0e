//! Settings of an audio output stream.

use vstd::prelude::*;

verus! {

/// The formats in which samples can be handed to the audio device.
#[derive(Debug, Clone, Copy, PartialEq, Eq, Structural)]
pub enum StreamSampleFormat {
    F32,
    I16,
    U16,
}

/// Settings of an audio output stream.
#[derive(Debug, Clone)]
pub struct StreamConfig {
    /// Samples per second.
    pub sample_rate: u32,
    /// Number of channels: 1 for mono, 2 for stereo.
    pub channels: u16,
    /// Frames per buffer.
    pub buffer_size: u32,
    /// Format of the samples.
    pub sample_format: StreamSampleFormat,
}

/// The settings that a new stream configuration starts with: mono, 44.1
/// kHz, buffers of 1024 frames, samples in 32-bit floating point.
pub open spec fn default_stream() -> StreamConfig {
    StreamConfig {
        sample_rate: 44100,
        channels: 1,
        buffer_size: 1024,
        sample_format: StreamSampleFormat::F32,
    }
}

impl Default for StreamConfig {
    fn default() -> (config: Self)
        ensures
            config == default_stream(),
    {
        Self {
            sample_rate: 44100,
            channels: 1,
            buffer_size: 1024,
            sample_format: StreamSampleFormat::F32,
        }
    }
}

impl StreamConfig {
    /// The default settings.
    pub fn new() -> (config: Self)
        ensures
            config == default_stream(),
    {
        Self::default()
    }

    /// These settings with another sample rate.
    pub fn with_sample_rate(self, sample_rate: u32) -> (config: Self)
        ensures
            config == (StreamConfig { sample_rate, ..self }),
    {
        let mut config = self;
        config.sample_rate = sample_rate;
        config
    }

    /// These settings with another number of channels.
    pub fn with_channels(self, channels: u16) -> (config: Self)
        ensures
            config == (StreamConfig { channels, ..self }),
    {
        let mut config = self;
        config.channels = channels;
        config
    }

    /// These settings with another buffer size.
    pub fn with_buffer_size(self, buffer_size: u32) -> (config: Self)
        ensures
            config == (StreamConfig { buffer_size, ..self }),
    {
        let mut config = self;
        config.buffer_size = buffer_size;
        config
    }

    /// These settings with another sample format.
    pub fn with_sample_format(self, format: StreamSampleFormat) -> (config: Self)
        ensures
            config == (StreamConfig { sample_format: format, ..self }),
    {
        let mut config = self;
        config.sample_format = format;
        config
    }

    /// Settings for low latency: small buffers at 48 kHz.
    pub fn low_latency() -> (config: Self)
        ensures
            config == (StreamConfig { buffer_size: 256, sample_rate: 48000, ..default_stream() }),
    {
        Self::new().with_buffer_size(256).with_sample_rate(48000)
    }

    /// Settings for high quality: large buffers, 96 kHz, stereo.
    pub fn high_quality() -> (config: Self)
        ensures
            config == (StreamConfig {
                buffer_size: 2048,
                sample_rate: 96000,
                channels: 2,
                ..default_stream()
            }),
    {
        Self::new().with_buffer_size(2048).with_sample_rate(96000).with_channels(2)
    }
}

} // verus!
