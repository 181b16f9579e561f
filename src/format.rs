use vstd::prelude::*;
use crate::error::AudioError;

verus! {

/// The native sample representations a capture device may report.
#[derive(Debug, Clone, Copy, PartialEq, Eq, Structural)]
pub enum SampleFormat {
    I8,
    I16,
    I32,
    I64,
    U8,
    U16,
    U32,
    U64,
    F32,
    F64,
    /// A representation this library does not know.
    Other,
}

/// The native representations that have a normalization path to the
/// canonical 32-bit float samples.
#[derive(Debug, Clone, Copy, PartialEq, Eq, Structural)]
pub enum NativeFormat {
    F32,
    I16,
    U16,
}

/// Which normalization path, if any, serves a native format.
pub open spec fn native_of(f: SampleFormat) -> Option<NativeFormat> {
    match f {
        SampleFormat::F32 => Some(NativeFormat::F32),
        SampleFormat::I16 => Some(NativeFormat::I16),
        SampleFormat::U16 => Some(NativeFormat::U16),
        _ => None,
    }
}

/// Selects the normalization path once, before the stream is built.
pub fn normalization_path(f: SampleFormat) -> (r: Result<NativeFormat, AudioError>)
    ensures
        native_of(f) matches Some(n) ==> r == Ok::<NativeFormat, AudioError>(n),
        native_of(f) is None ==> r == Err::<NativeFormat, AudioError>(
            AudioError::UnsupportedSampleFormat,
        ),
{
    match f {
        SampleFormat::F32 => Ok(NativeFormat::F32),
        SampleFormat::I16 => Ok(NativeFormat::I16),
        SampleFormat::U16 => Ok(NativeFormat::U16),
        _ => Err(AudioError::UnsupportedSampleFormat),
    }
}

/// Rate and channel layout shared by every sample batch of one recording.
#[derive(Debug, Clone, Copy, PartialEq, Eq, Structural)]
pub struct BatchFormat {
    pub sample_rate: u32,
    pub channel_count: u16,
}

/// What a device's default input configuration reports.
#[derive(Debug, Clone, Copy, PartialEq, Eq, Structural)]
pub struct DeviceConfig {
    pub sample_rate: u32,
    pub channel_count: u16,
    pub sample_format: SampleFormat,
}

} // verus!
