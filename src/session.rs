use vstd::prelude::*;
use std::time::Instant;
use core::time::Duration;
use crate::error::AudioError;

verus! {

/// `std::time::Instant`, a reading of the monotonic clock, carried opaque:
/// the session keeps the one taken at `start`.
#[verifier::external_type_specification]
#[verifier::external_body]
pub struct ExInstant(std::time::Instant);

/// Relies on `std::time::Instant::now`: a reading of the monotonic clock.
/// Nothing is known of its value.
pub assume_specification[ std::time::Instant::now ]() -> Instant;

/// Relies on `std::time::Instant::elapsed`: the time since the reading
/// (saturating at zero, so it does not panic). Nothing is known of its value.
pub assume_specification[ std::time::Instant::elapsed ](t: &Instant) -> Duration;

/// Relies on `core::time::Duration::as_secs`: the whole seconds of a
/// duration. A duration is opaque here, so nothing is said of the value.
pub assume_specification[ core::time::Duration::as_secs ](d: &Duration) -> u64;

/// Whether a recording is running.
#[derive(Debug, Clone, Copy, PartialEq, Eq, Structural)]
pub enum Phase {
    Idle,
    Recording,
}

/// Abstract state of a recording session; `S` is the sender of the capture
/// thread's stop signal, `W` the handle of the writer thread.
pub struct SessionView<S, W> {
    pub phase: Phase,
    pub output_path: Option<Seq<char>>,
    pub shutdown_signal: Option<S>,
    pub writer_handle: Option<W>,
}

impl<S, W> SessionView<S, W> {
    pub open spec fn idle() -> SessionView<S, W> {
        SessionView { phase: Phase::Idle, output_path: None, shutdown_signal: None, writer_handle: None }
    }

    pub open spec fn recording(path: Seq<char>, signal: S, writer: W) -> SessionView<S, W> {
        SessionView {
            phase: Phase::Recording,
            output_path: Some(path),
            shutdown_signal: Some(signal),
            writer_handle: Some(writer),
        }
    }

    /// The error `start` returns, if any.
    pub open spec fn start_error(self) -> Option<AudioError> {
        if self.phase == Phase::Recording {
            Some(AudioError::AlreadyRecording)
        } else {
            None
        }
    }

    /// The error `stop` returns, if any.
    pub open spec fn stop_error(self) -> Option<AudioError> {
        if self.phase == Phase::Idle {
            Some(AudioError::NotRecording)
        } else {
            None
        }
    }

    /// The session after `start(path)`, where launching the threads gave
    /// `signal` and `writer`: unchanged when `start` fails.
    pub open spec fn after_start(self, path: Seq<char>, signal: S, writer: W) -> SessionView<S, W> {
        if self.start_error() is None {
            Self::recording(path, signal, writer)
        } else {
            self
        }
    }

    /// The session after `stop`: idle, or unchanged when `stop` fails.
    pub open spec fn after_stop(self) -> SessionView<S, W> {
        if self.stop_error() is None {
            Self::idle()
        } else {
            self
        }
    }
}

/// Elapsed whole seconds as reported to callers, saturating at `i32::MAX`.
pub open spec fn whole_seconds(secs: u64) -> i32 {
    if secs > i32::MAX as u64 {
        i32::MAX
    } else {
        secs as i32
    }
}

pub fn elapsed_seconds(secs: u64) -> (r: i32)
    ensures
        r == whole_seconds(secs),
{
    if secs > i32::MAX as u64 {
        i32::MAX
    } else {
        secs as i32
    }
}

/// After a successful `start`, a second `start` with no `stop` between fails
/// with `AlreadyRecording` and leaves the session, with its running pair,
/// as it was.
pub proof fn lemma_start_after_start<S, W>(
    v: SessionView<S, W>,
    first: Seq<char>,
    first_signal: S,
    first_writer: W,
    second: Seq<char>,
    second_signal: S,
    second_writer: W,
)
    requires
        v.start_error() is None,
    ensures
        v.after_start(first, first_signal, first_writer).start_error() == Some(
            AudioError::AlreadyRecording,
        ),
        v.after_start(first, first_signal, first_writer).after_start(
            second,
            second_signal,
            second_writer,
        ) == v.after_start(first, first_signal, first_writer),
{
}

/// On a fresh session, `stop` fails with `NotRecording` and leaves it idle.
pub proof fn lemma_stop_before_start<S, W>()
    ensures
        SessionView::<S, W>::idle().stop_error() == Some(AudioError::NotRecording),
        SessionView::<S, W>::idle().after_stop() == SessionView::<S, W>::idle(),
{
}

/// A successful `stop` leaves the session idle: a second `stop` fails with
/// `NotRecording`, and a new `start` succeeds.
pub proof fn lemma_stop_then_start<S, W>(v: SessionView<S, W>)
    requires
        v.stop_error() is None,
    ensures
        v.after_stop() == SessionView::<S, W>::idle(),
        v.after_stop().stop_error() == Some(AudioError::NotRecording),
        v.after_stop().start_error() is None,
{
}

/// The state of the one recording session: idle, or recording to a path
/// with a running capture/writer pair.
pub struct RecordingState<S, W> {
    phase: Phase,
    started_at: Option<Instant>,
    output_path: Option<String>,
    shutdown_signal: Option<S>,
    writer_handle: Option<W>,
}

impl<S, W> View for RecordingState<S, W> {
    type V = SessionView<S, W>;

    closed spec fn view(&self) -> SessionView<S, W> {
        SessionView {
            phase: self.phase,
            output_path: match self.output_path {
                Some(p) => Some(p@),
                None => None,
            },
            shutdown_signal: self.shutdown_signal,
            writer_handle: self.writer_handle,
        }
    }
}

impl<S, W> RecordingState<S, W> {
    /// Recording exactly when a stop signal and a writer handle are held.
    #[verifier::type_invariant]
    closed spec fn consistent(self) -> bool {
        &&& (self.phase == Phase::Recording) == (self.shutdown_signal is Some
            && self.writer_handle is Some)
        &&& (self.phase == Phase::Recording) == self.started_at is Some
        &&& (self.phase == Phase::Recording) == self.output_path is Some
    }

    pub fn new() -> (r: RecordingState<S, W>)
        ensures
            r@ == SessionView::<S, W>::idle(),
    {
        RecordingState {
            phase: Phase::Idle,
            started_at: None,
            output_path: None,
            shutdown_signal: None,
            writer_handle: None,
        }
    }

    /// Whether a recording runs; exactly then a stop signal's sender and a
    /// writer handle are held.
    pub fn is_recording(&self) -> (r: bool)
        ensures
            r == (self@.phase == Phase::Recording),
            r == (self@.shutdown_signal is Some && self@.writer_handle is Some),
            r == self@.output_path is Some,
    {
        proof {
            use_type_invariant(&*self);
        }
        self.phase == Phase::Recording
    }

    /// Starts a recording to `path`. Only when no recording runs is `spawn`
    /// called, to launch the writer and capture threads; it returns the stop
    /// signal's sender and the writer's handle, which the state keeps.
    /// While a recording runs the call fails and the state is unchanged.
    pub fn start<F>(&mut self, path: &str, spawn: F) -> (r: Result<(), AudioError>)
        where
            F: FnOnce() -> (S, W),
        requires
            spawn.requires(()),
        ensures
            r == match old(self)@.start_error() {
                Some(e) => Err::<(), AudioError>(e),
                None => Ok(()),
            },
            final(self)@ == old(self)@.after_start(
                path@,
                final(self)@.shutdown_signal->Some_0,
                final(self)@.writer_handle->Some_0,
            ),
            old(self)@.start_error() is None ==> spawn.ensures(
                (),
                (final(self)@.shutdown_signal->Some_0, final(self)@.writer_handle->Some_0),
            ),
    {
        proof {
            use_type_invariant(&*self);
        }
        if self.phase == Phase::Recording {
            return Err(AudioError::AlreadyRecording);
        }
        let (signal, writer) = spawn();
        let now = Instant::now();
        *self = RecordingState {
            phase: Phase::Recording,
            started_at: Some(now),
            output_path: Some(path.to_owned()),
            shutdown_signal: Some(signal),
            writer_handle: Some(writer),
        };
        Ok(())
    }

    /// Stops the running recording: hands the stop signal's sender to
    /// `request_shutdown`, then the writer's handle to `join_writer` (which
    /// waits for the file to be finalized), and returns the elapsed whole
    /// seconds. With no recording running the call fails and the state is
    /// unchanged.
    pub fn stop<FS, FW>(&mut self, request_shutdown: FS, join_writer: FW) -> (r: Result<
        i32,
        AudioError,
    >)
        where
            FS: FnOnce(S),
            FW: FnOnce(W),
        requires
            forall|s: S| request_shutdown.requires((s,)),
            forall|w: W| join_writer.requires((w,)),
        ensures
            old(self)@.stop_error() matches Some(e) ==> r == Err::<i32, AudioError>(e),
            old(self)@.stop_error() is None ==> (r matches Ok(secs) && secs >= 0),
            final(self)@ == old(self)@.after_stop(),
            old(self)@.stop_error() is None ==> request_shutdown.ensures(
                (old(self)@.shutdown_signal->Some_0,),
                (),
            ) && join_writer.ensures((old(self)@.writer_handle->Some_0,), ()),
    {
        proof {
            use_type_invariant(&*self);
        }
        if self.phase == Phase::Idle {
            return Err(AudioError::NotRecording);
        }
        let mut previous = RecordingState::new();
        std::mem::swap(self, &mut previous);
        let RecordingState { started_at, shutdown_signal, writer_handle, .. } = previous;
        let secs: u64 = match started_at {
            Some(t) => {
                match shutdown_signal {
                    Some(s) => request_shutdown(s),
                    None => {},
                }
                match writer_handle {
                    Some(w) => join_writer(w),
                    None => {},
                }
                let elapsed = t.elapsed();
                elapsed.as_secs()
            },
            None => 0,
        };
        Ok(elapsed_seconds(secs))
    }
}

} // verus!
