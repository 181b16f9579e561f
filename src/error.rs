use vstd::prelude::*;

verus! {

/// Errors of the recording pipeline.
#[derive(Debug, Clone, Copy, PartialEq, Eq, Structural)]
pub enum AudioError {
    /// `start` was called while a recording is running.
    AlreadyRecording,
    /// `stop` was called while no recording is running.
    NotRecording,
    /// The device reports a native sample format with no normalization path.
    UnsupportedSampleFormat,
    /// The host has no default input device.
    NoDefaultInputDevice,
    /// The hardware stream could not be built or started.
    StreamFailed,
    /// Appending to or finalizing the output container failed.
    ContainerWriteError,
    /// The lock around the recording state was poisoned.
    LockPoisoned,
}

impl AudioError {
    /// A short human-readable description.
    pub fn message(&self) -> (r: &'static str)
        ensures
            r@ == match *self {
                AudioError::AlreadyRecording => "already recording"@,
                AudioError::NotRecording => "not recording"@,
                AudioError::UnsupportedSampleFormat => "unsupported sample format"@,
                AudioError::NoDefaultInputDevice => "no default input device"@,
                AudioError::StreamFailed => "audio stream could not be started"@,
                AudioError::ContainerWriteError => "writing the audio container failed"@,
                AudioError::LockPoisoned => "recording state lock poisoned"@,
            },
    {
        match self {
            AudioError::AlreadyRecording => "already recording",
            AudioError::NotRecording => "not recording",
            AudioError::UnsupportedSampleFormat => "unsupported sample format",
            AudioError::NoDefaultInputDevice => "no default input device",
            AudioError::StreamFailed => "audio stream could not be started",
            AudioError::ContainerWriteError => "writing the audio container failed",
            AudioError::LockPoisoned => "recording state lock poisoned",
        }
    }
}

} // verus!
