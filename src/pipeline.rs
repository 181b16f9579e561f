use vstd::prelude::*;
use crate::capture::{CapturePhase, CaptureView};
use crate::format::DeviceConfig;
use crate::session::SessionView;
use crate::writer::{CloseAction, WriterView};

verus! {

/// Whether opening `device` fails: no default input device, or a native
/// format without a normalization path.
pub open spec fn open_fails(device: Option<DeviceConfig>) -> bool {
    CaptureView::open_result(device) is Err
}

/// A capture stage that fails to open its device stops at once (so its
/// stream can no longer be started) without ever streaming, and stamps no
/// batch, even once told to stop; the writer,
/// having received no batch, creates no file and counts no frame; and
/// stopping the recording session still succeeds.
pub proof fn lemma_failed_capture_leaves_no_file<S, W>(
    device: Option<DeviceConfig>,
    path: Seq<char>,
    signal: S,
    writer: W,
)
    requires
        open_fails(device),
    ensures
        CaptureView::initial().after_open(device).phase == CapturePhase::Stopped,
        CaptureView::initial().after_open(device).batch_format() is None,
        CaptureView::initial().after_open(device).after_stop().batch_format() is None,
        !CaptureView::initial().after_open(device).after_stop().streamed,
        WriterView::initial().close_action() == CloseAction::NoOutput,
        WriterView::initial().frames() == 0,
        !WriterView::initial().failed,
        SessionView::<S, W>::recording(path, signal, writer).stop_error() is None,
        SessionView::<S, W>::recording(path, signal, writer).after_stop() == SessionView::<
            S,
            W,
        >::idle(),
{
}

} // verus!
