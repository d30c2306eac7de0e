//! Tests of the stream settings.

use chip8::audio::stream::{StreamConfig, StreamSampleFormat};

#[test]
fn test_stream_config_creation() {
    let config = StreamConfig::new();
    
    assert_eq!(config.sample_rate, 44100);
    assert_eq!(config.channels, 1);
    assert_eq!(config.buffer_size, 1024);
    assert_eq!(config.sample_format, StreamSampleFormat::F32);
}

#[test]
fn test_stream_config_builder() {
    let config = StreamConfig::new()
        .with_sample_rate(48000)
        .with_channels(2)
        .with_buffer_size(512)
        .with_sample_format(StreamSampleFormat::I16);
    
    assert_eq!(config.sample_rate, 48000);
    assert_eq!(config.channels, 2);
    assert_eq!(config.buffer_size, 512);
    assert_eq!(config.sample_format, StreamSampleFormat::I16);
}

#[test]
fn test_stream_config_presets() {
    let low_latency = StreamConfig::low_latency();
    assert_eq!(low_latency.buffer_size, 256);
    assert_eq!(low_latency.sample_rate, 48000);
    
    let high_quality = StreamConfig::high_quality();
    assert_eq!(high_quality.buffer_size, 2048);
    assert_eq!(high_quality.sample_rate, 96000);
    assert_eq!(high_quality.channels, 2);
}

// Note: AudioStream creation tests require an actual audio device,
// so they would fail in headless CI environments.
// For integration testing, these would need to be run manually
// or in environments with audio hardware.
