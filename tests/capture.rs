use gita_audio::capture::{CapturePhase, CaptureStage, StreamPlan};
use gita_audio::error::AudioError;
use gita_audio::format::{normalization_path, BatchFormat, DeviceConfig, NativeFormat, SampleFormat};

fn device(f: SampleFormat) -> DeviceConfig {
    DeviceConfig { sample_rate: 48000, channel_count: 2, sample_format: f }
}

#[test]
fn supported_formats_have_a_path() {
    assert_eq!(normalization_path(SampleFormat::F32), Ok(NativeFormat::F32));
    assert_eq!(normalization_path(SampleFormat::I16), Ok(NativeFormat::I16));
    assert_eq!(normalization_path(SampleFormat::U16), Ok(NativeFormat::U16));
}

#[test]
fn other_formats_are_unsupported() {
    for f in [
        SampleFormat::I8,
        SampleFormat::I32,
        SampleFormat::I64,
        SampleFormat::U8,
        SampleFormat::U32,
        SampleFormat::U64,
        SampleFormat::F64,
        SampleFormat::Other,
    ] {
        assert_eq!(normalization_path(f), Err(AudioError::UnsupportedSampleFormat));
    }
}

#[test]
fn no_device_stops_capture() {
    let mut c = CaptureStage::new();
    assert_eq!(c.open(None), Err(AudioError::NoDefaultInputDevice));
    assert_eq!(c.phase(), CapturePhase::Stopped);
    assert_eq!(c.batch_format(), None);
}

#[test]
fn unsupported_device_stops_capture() {
    let mut c = CaptureStage::new();
    assert_eq!(c.open(Some(device(SampleFormat::I32))), Err(AudioError::UnsupportedSampleFormat));
    assert_eq!(c.phase(), CapturePhase::Stopped);
    c.stop();
    assert_eq!(c.batch_format(), None);
}

#[test]
fn streaming_capture_stamps_batches_until_stopped() {
    let mut c = CaptureStage::new();
    let fmt = BatchFormat { sample_rate: 48000, channel_count: 2 };
    assert_eq!(
        c.open(Some(device(SampleFormat::U16))),
        Ok(StreamPlan { native: NativeFormat::U16, batch: fmt })
    );
    assert_eq!(c.phase(), CapturePhase::NotStarted);
    assert_eq!(c.batch_format(), None);
    assert_eq!(c.stream_started(true), Ok(()));
    assert_eq!(c.phase(), CapturePhase::Streaming);
    assert_eq!(c.batch_format(), Some(fmt));
    c.stop();
    assert_eq!(c.phase(), CapturePhase::Stopped);
    assert_eq!(c.batch_format(), None);
}

#[test]
fn stream_failure_stops_capture() {
    let mut c = CaptureStage::new();
    assert!(c.open(Some(device(SampleFormat::F32))).is_ok());
    assert_eq!(c.stream_started(false), Err(AudioError::StreamFailed));
    assert_eq!(c.phase(), CapturePhase::Stopped);
    assert_eq!(c.batch_format(), None);
}
