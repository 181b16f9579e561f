use gita_audio::error::AudioError;

#[test]
fn error_messages() {
    assert_eq!(AudioError::AlreadyRecording.message(), "already recording");
    assert_eq!(AudioError::NotRecording.message(), "not recording");
    assert_eq!(AudioError::UnsupportedSampleFormat.message(), "unsupported sample format");
    assert_eq!(AudioError::NoDefaultInputDevice.message(), "no default input device");
    assert_eq!(AudioError::StreamFailed.message(), "audio stream could not be started");
    assert_eq!(AudioError::ContainerWriteError.message(), "writing the audio container failed");
    assert_eq!(AudioError::LockPoisoned.message(), "recording state lock poisoned");
}
