use vstd::prelude::*;
use crate::error::AudioError;
use crate::format::{native_of, normalization_path, BatchFormat, DeviceConfig, NativeFormat};

verus! {

/// Life cycle of the capture stage: `NotStarted -> Streaming -> Stopped`.
#[derive(Debug, Clone, Copy, PartialEq, Eq, Structural)]
pub enum CapturePhase {
    NotStarted,
    Streaming,
    Stopped,
}

/// How the hardware stream is to be built: the conversion path chosen once
/// for the device's native format, and the format stamped on every batch.
#[derive(Debug, Clone, Copy, PartialEq, Eq, Structural)]
pub struct StreamPlan {
    pub native: NativeFormat,
    pub batch: BatchFormat,
}

/// The plan for a device configuration, if its format can be normalized.
pub open spec fn plan_of(cfg: DeviceConfig) -> Option<StreamPlan> {
    match native_of(cfg.sample_format) {
        Some(n) => Some(
            StreamPlan {
                native: n,
                batch: BatchFormat { sample_rate: cfg.sample_rate, channel_count: cfg.channel_count },
            },
        ),
        None => None,
    }
}

/// Abstract state of a capture stage.
pub struct CaptureView {
    pub phase: CapturePhase,
    pub plan: Option<StreamPlan>,
    /// Whether the stage ever reached `Streaming`.
    pub streamed: bool,
}

impl CaptureView {
    pub open spec fn initial() -> CaptureView {
        CaptureView { phase: CapturePhase::NotStarted, plan: None, streamed: false }
    }

    /// What opening a device (`None`: the host has none) returns.
    pub open spec fn open_result(device: Option<DeviceConfig>) -> Result<StreamPlan, AudioError> {
        match device {
            None => Err(AudioError::NoDefaultInputDevice),
            Some(cfg) => match plan_of(cfg) {
                Some(p) => Ok(p),
                None => Err(AudioError::UnsupportedSampleFormat),
            },
        }
    }

    /// After opening a device: planned and waiting for the stream, or stopped.
    pub open spec fn after_open(self, device: Option<DeviceConfig>) -> CaptureView {
        match Self::open_result(device) {
            Ok(p) => CaptureView { plan: Some(p), ..self },
            Err(_) => CaptureView { phase: CapturePhase::Stopped, ..self },
        }
    }

    /// After the planned stream was, or was not, built and started.
    pub open spec fn after_stream(self, ok: bool) -> CaptureView {
        if ok {
            CaptureView { phase: CapturePhase::Streaming, streamed: true, ..self }
        } else {
            CaptureView { phase: CapturePhase::Stopped, ..self }
        }
    }

    pub open spec fn after_stop(self) -> CaptureView {
        CaptureView { phase: CapturePhase::Stopped, ..self }
    }

    /// The format of outgoing batches: only a running stream produces any.
    pub open spec fn batch_format(self) -> Option<BatchFormat> {
        if self.phase == CapturePhase::Streaming {
            match self.plan {
                Some(p) => Some(p.batch),
                None => None,
            }
        } else {
            None
        }
    }
}

/// Decisions of the capture stage. The hardware stream itself is owned by the
/// thread that drives this value; the stage says when batches may flow.
pub struct CaptureStage {
    phase: CapturePhase,
    plan: Option<StreamPlan>,
    streamed: bool,
}

impl View for CaptureStage {
    type V = CaptureView;

    closed spec fn view(&self) -> CaptureView {
        CaptureView { phase: self.phase, plan: self.plan, streamed: self.streamed }
    }
}

impl CaptureStage {
    pub fn new() -> (r: CaptureStage)
        ensures
            r@ == CaptureView::initial(),
    {
        CaptureStage { phase: CapturePhase::NotStarted, plan: None, streamed: false }
    }

    /// Opens the default input device, given its default configuration
    /// (`None` when the host has no default input device). On success the
    /// stream plan is fixed and the stage waits for the stream to start; on
    /// failure the stage stops without ever streaming.
    pub fn open(&mut self, device: Option<DeviceConfig>) -> (r: Result<StreamPlan, AudioError>)
        requires
            old(self)@.phase == CapturePhase::NotStarted,
            old(self)@.plan is None,
        ensures
            r == CaptureView::open_result(device),
            final(self)@ == old(self)@.after_open(device),
    {
        match device {
            None => {
                self.phase = CapturePhase::Stopped;
                Err(AudioError::NoDefaultInputDevice)
            },
            Some(cfg) => match normalization_path(cfg.sample_format) {
                Ok(native) => {
                    let plan = StreamPlan {
                        native,
                        batch: BatchFormat {
                            sample_rate: cfg.sample_rate,
                            channel_count: cfg.channel_count,
                        },
                    };
                    self.plan = Some(plan);
                    Ok(plan)
                },
                Err(e) => {
                    self.phase = CapturePhase::Stopped;
                    Err(e)
                },
            },
        }
    }

    /// Records whether the planned hardware stream was built and started.
    pub fn stream_started(&mut self, ok: bool) -> (r: Result<(), AudioError>)
        requires
            old(self)@.phase == CapturePhase::NotStarted,
            old(self)@.plan is Some,
        ensures
            ok ==> r is Ok,
            !ok ==> r == Err::<(), AudioError>(AudioError::StreamFailed),
            final(self)@ == old(self)@.after_stream(ok),
    {
        if ok {
            self.phase = CapturePhase::Streaming;
            self.streamed = true;
            Ok(())
        } else {
            self.phase = CapturePhase::Stopped;
            Err(AudioError::StreamFailed)
        }
    }

    /// The stop signal arrived (or its sender went away): the stream is torn
    /// down and no further batch flows.
    pub fn stop(&mut self)
        ensures
            final(self)@ == old(self)@.after_stop(),
    {
        self.phase = CapturePhase::Stopped;
    }

    /// The format stamped on outgoing batches: there is one only while the
    /// stream runs.
    pub fn batch_format(&self) -> (r: Option<BatchFormat>)
        ensures
            r == self@.batch_format(),
    {
        if self.phase == CapturePhase::Streaming {
            match self.plan {
                Some(p) => Some(p.batch),
                None => None,
            }
        } else {
            None
        }
    }

    pub fn phase(&self) -> (r: CapturePhase)
        ensures
            r == self@.phase,
    {
        self.phase
    }
}

} // verus!
