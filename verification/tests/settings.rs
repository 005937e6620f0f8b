use audio_engine::ring_buffer::MAX_CAPACITY;
use audio_engine::settings::buffer_capacity;
use audio_engine::settings::is_supported_rate;
use audio_engine::settings::latency_frames;
use audio_engine::settings::latency_samples;
use audio_engine::settings::sample_rates;
use audio_engine::settings::BLOCK_SIZE;
use audio_engine::settings::CHANNELS;
use audio_engine::settings::DEFAULT_SAMPLE_RATE;
use audio_engine::settings::LATENCY_MS;

#[test]
fn supported_rates_are_the_thirteen_listed() {
    assert_eq!(
        sample_rates(),
        [5512, 8000, 11025, 16000, 22050, 32000, 44100, 48000, 64000, 88200, 96000, 176400, 192000]
    );
}

#[test]
fn every_listed_rate_is_supported() {
    for rate in sample_rates() {
        assert!(is_supported_rate(rate));
    }
}

#[test]
fn unlisted_rates_are_not_supported() {
    assert!(!is_supported_rate(44000));
    assert!(!is_supported_rate(0));
    assert!(!is_supported_rate(5511));
    assert!(!is_supported_rate(192001));
    assert!(!is_supported_rate(u32::MAX));
}

#[test]
fn fixed_configuration_values() {
    assert_eq!(DEFAULT_SAMPLE_RATE, 44100);
    assert_eq!(CHANNELS, 2);
    assert_eq!(BLOCK_SIZE, 512);
    assert_eq!(LATENCY_MS, 500);
}

#[test]
fn latency_frames_at_default_rate() {
    assert_eq!(latency_frames(500, 44100), 22050);
}

#[test]
fn latency_frames_rounds_half_up() {
    assert_eq!(latency_frames(500, 11025), 5513);
    assert_eq!(latency_frames(1, 500), 1);
    assert_eq!(latency_frames(1, 499), 0);
    assert_eq!(latency_frames(1, 1499), 1);
    assert_eq!(latency_frames(1, 1500), 2);
}

#[test]
fn latency_frames_of_zero_latency_or_rate_is_zero() {
    assert_eq!(latency_frames(0, 44100), 0);
    assert_eq!(latency_frames(500, 0), 0);
}

#[test]
fn latency_frames_of_largest_arguments() {
    let exact = (u32::MAX as u64) * (u32::MAX as u64);
    assert_eq!(latency_frames(u32::MAX, u32::MAX), (exact + 500) / 1000);
}

#[test]
fn latency_samples_counts_every_channel() {
    assert_eq!(latency_samples(500, 44100, 2), Some(44100));
    assert_eq!(latency_samples(500, 192000, 2), Some(192000));
    assert_eq!(latency_samples(500, 44100, 0), Some(0));
}

#[test]
fn latency_samples_is_none_above_largest_capacity() {
    assert_eq!(latency_samples(1000, MAX_CAPACITY as u32, 1), Some(MAX_CAPACITY));
    assert_eq!(latency_samples(1000, MAX_CAPACITY as u32 + 1, 1), None);
    assert_eq!(latency_samples(u32::MAX, u32::MAX, u16::MAX), None);
}

#[test]
fn buffer_capacity_is_twice_the_latency_samples() {
    assert_eq!(buffer_capacity(500, 44100, 2), Some(88200));
    assert_eq!(buffer_capacity(500, 5512, 2), Some(11024));
    assert_eq!(buffer_capacity(500, 192000, 2), Some(384000));
}

#[test]
fn buffer_capacity_is_none_when_zero_or_too_large() {
    assert_eq!(buffer_capacity(0, 44100, 2), None);
    assert_eq!(buffer_capacity(500, 44100, 0), None);
    assert_eq!(buffer_capacity(1000, MAX_CAPACITY as u32, 1), None);
    assert_eq!(buffer_capacity(1000, (MAX_CAPACITY / 2) as u32, 1), Some(MAX_CAPACITY - 1));
    assert_eq!(buffer_capacity(1000, (MAX_CAPACITY / 2) as u32 + 1, 1), None);
}
