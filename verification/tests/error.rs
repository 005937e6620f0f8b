use audio_engine::error::AudioError;

#[test]
fn each_error_has_its_own_message() {
    assert_eq!(AudioError::DeviceNotFound.message(), "no device at that index");
    assert_eq!(
        AudioError::StreamBuildError.message(),
        "the host rejected the stream configuration"
    );
    assert_eq!(
        AudioError::NoActiveStream.message(),
        "no stream has been built for this port"
    );
    assert_eq!(AudioError::UnsupportedSampleRate.message(), "unsupported sample rate");
}

#[test]
fn errors_compare_by_variant() {
    assert_eq!(AudioError::DeviceNotFound, AudioError::DeviceNotFound);
    assert_ne!(AudioError::DeviceNotFound, AudioError::NoActiveStream);
}
