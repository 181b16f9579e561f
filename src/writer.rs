use vstd::prelude::*;
use crate::error::AudioError;
use crate::format::BatchFormat;

verus! {

/// Header parameters of the output container.
#[derive(Debug, Clone, Copy, PartialEq, Eq, Structural)]
pub struct ContainerSpec {
    pub channels: u16,
    pub sample_rate: u32,
    pub bits_per_sample: u16,
    /// Samples are stored as IEEE floats (not integers).
    pub float_samples: bool,
}

/// The container a recording is written to: the first batch's rate and
/// channel count, 32-bit floating-point samples.
pub open spec fn container_for(f: BatchFormat) -> ContainerSpec {
    ContainerSpec {
        channels: f.channel_count,
        sample_rate: f.sample_rate,
        bits_per_sample: 32,
        float_samples: true,
    }
}

pub fn container_spec(f: BatchFormat) -> (r: ContainerSpec)
    ensures
        r == container_for(f),
{
    ContainerSpec {
        channels: f.channel_count,
        sample_rate: f.sample_rate,
        bits_per_sample: 32,
        float_samples: true,
    }
}

/// What to do with a batch that just arrived.
#[derive(Debug, Clone, Copy, PartialEq, Eq, Structural)]
pub enum BatchAction {
    /// No container is open yet: open one with this header, then append.
    OpenContainer(ContainerSpec),
    /// Append the batch's samples, in order, to the open container.
    Append,
    /// A write failed earlier: stop receiving.
    Stop,
}

/// What to do once the batch channel is closed.
#[derive(Debug, Clone, Copy, PartialEq, Eq, Structural)]
pub enum CloseAction {
    /// Finalize the container: it becomes visible as a complete file.
    Finalize,
    /// A write failed: close what was written without finalizing it.
    Abandon,
    /// No batch ever reached an open container: no file is created.
    NoOutput,
}

/// Abstract state of a writer stage.
pub struct WriterView {
    pub container: Option<ContainerSpec>,
    /// Samples appended so far.
    pub samples: nat,
    pub failed: bool,
}

impl WriterView {
    pub open spec fn initial() -> WriterView {
        WriterView { container: None, samples: 0, failed: false }
    }

    pub open spec fn batch_action(self, f: BatchFormat) -> BatchAction {
        if self.failed {
            BatchAction::Stop
        } else {
            match self.container {
                None => BatchAction::OpenContainer(container_for(f)),
                Some(_) => BatchAction::Append,
            }
        }
    }

    /// After trying to open the container: a failed open leaves the stage
    /// waiting for the next batch.
    pub open spec fn after_open(self, spec: ContainerSpec, ok: bool) -> WriterView {
        if ok {
            WriterView { container: Some(spec), ..self }
        } else {
            self
        }
    }

    /// After appending `n` samples, the last write failing or not. A count
    /// that would pass `u64::MAX` ends the recording as a failed write.
    pub open spec fn after_append(self, n: nat, write_failed: bool) -> WriterView {
        if self.samples + n > u64::MAX {
            WriterView { failed: true, ..self }
        } else {
            WriterView { samples: self.samples + n, failed: write_failed, ..self }
        }
    }

    pub open spec fn close_action(self) -> CloseAction {
        if self.failed {
            CloseAction::Abandon
        } else if self.container is Some {
            CloseAction::Finalize
        } else {
            CloseAction::NoOutput
        }
    }

    /// Whole frames written: samples divided by the channel count.
    pub open spec fn frames(self) -> nat {
        match self.container {
            Some(c) => if c.channels == 0 {
                0
            } else {
                self.samples / (c.channels as nat)
            },
            None => 0,
        }
    }
}

/// Sum of a sequence of batch sizes.
pub open spec fn total(lens: Seq<nat>) -> nat
    decreases lens.len(),
{
    if lens.len() == 0 {
        0
    } else {
        total(lens.drop_last()) + lens.last()
    }
}

/// The writer after a batch of `n` samples of format `f` arrives, the
/// container opening and every write succeeding.
pub open spec fn batch_step(w: WriterView, f: BatchFormat, n: nat) -> WriterView {
    match w.batch_action(f) {
        BatchAction::Stop => w,
        BatchAction::OpenContainer(spec) => w.after_open(spec, true).after_append(n, false),
        BatchAction::Append => w.after_append(n, false),
    }
}

/// The writer after the batches of sizes `lens` arrive in order.
pub open spec fn run_batches(w: WriterView, f: BatchFormat, lens: Seq<nat>) -> WriterView
    decreases lens.len(),
{
    if lens.len() == 0 {
        w
    } else {
        batch_step(run_batches(w, f, lens.drop_last()), f, lens.last())
    }
}

/// A fresh writer fed batches of one format, all writes succeeding, has
/// appended every sample of every batch: it holds one container with that
/// format, its frame count is the total sample count divided by the channel
/// count, and closing it finalizes the file. Fed no batch, it creates no file.
pub proof fn lemma_frames_of_batches(f: BatchFormat, lens: Seq<nat>)
    requires
        total(lens) <= u64::MAX,
    ensures
        run_batches(WriterView::initial(), f, lens).samples == total(lens),
        !run_batches(WriterView::initial(), f, lens).failed,
        lens.len() > 0 ==> run_batches(WriterView::initial(), f, lens).container == Some(
            container_for(f),
        ),
        lens.len() > 0 ==> run_batches(WriterView::initial(), f, lens).close_action()
            == CloseAction::Finalize,
        lens.len() == 0 ==> run_batches(WriterView::initial(), f, lens).close_action()
            == CloseAction::NoOutput,
        f.channel_count > 0 ==> run_batches(WriterView::initial(), f, lens).frames() == total(lens)
            / (f.channel_count as nat),
    decreases lens.len(),
{
    if lens.len() > 0 {
        lemma_frames_of_batches(f, lens.drop_last());
    }
}

/// Decisions of the writer stage: when to open the container, whether to
/// append, and how to close. The thread that drives it owns the file.
pub struct WriterStage {
    container: Option<ContainerSpec>,
    samples_written: u64,
    failed: bool,
}

impl View for WriterStage {
    type V = WriterView;

    closed spec fn view(&self) -> WriterView {
        WriterView {
            container: self.container,
            samples: self.samples_written as nat,
            failed: self.failed,
        }
    }
}

impl WriterStage {
    pub fn new() -> (r: WriterStage)
        ensures
            r@ == WriterView::initial(),
    {
        WriterStage { container: None, samples_written: 0, failed: false }
    }

    /// The action for a batch of format `f`.
    pub fn on_batch(&self, f: BatchFormat) -> (r: BatchAction)
        ensures
            r == self@.batch_action(f),
    {
        if self.failed {
            BatchAction::Stop
        } else {
            match self.container {
                None => BatchAction::OpenContainer(container_spec(f)),
                Some(_) => BatchAction::Append,
            }
        }
    }

    /// Records whether opening a container with header `spec` succeeded.
    pub fn container_opened(&mut self, spec: ContainerSpec, ok: bool)
        requires
            old(self)@.container is None,
            !old(self)@.failed,
        ensures
            final(self)@ == old(self)@.after_open(spec, ok),
    {
        if ok {
            self.container = Some(spec);
        }
    }

    /// Records `n` samples appended to the open container; `write_failed`
    /// says that the write after them failed.
    pub fn samples_appended(&mut self, n: u64, write_failed: bool)
        requires
            old(self)@.container is Some,
            !old(self)@.failed,
        ensures
            final(self)@ == old(self)@.after_append(n as nat, write_failed),
    {
        match self.samples_written.checked_add(n) {
            Some(total) => {
                self.samples_written = total;
                self.failed = write_failed;
            },
            None => {
                self.failed = true;
            },
        }
    }

    /// The action once the batch channel is closed.
    pub fn on_close(&self) -> (r: CloseAction)
        ensures
            r == self@.close_action(),
    {
        if self.failed {
            CloseAction::Abandon
        } else if self.container.is_some() {
            CloseAction::Finalize
        } else {
            CloseAction::NoOutput
        }
    }

    pub fn samples_written(&self) -> (r: u64)
        ensures
            r as nat == self@.samples,
    {
        self.samples_written
    }

    pub fn frames_written(&self) -> (r: u64)
        ensures
            r as nat == self@.frames(),
    {
        match self.container {
            Some(c) => if c.channels == 0 {
                0
            } else {
                self.samples_written / (c.channels as u64)
            },
            None => 0,
        }
    }

    /// The result of the stage: the frames written, or the write error.
    pub fn outcome(&self) -> (r: Result<u64, AudioError>)
        ensures
            self@.failed ==> r == Err::<u64, AudioError>(AudioError::ContainerWriteError),
            !self@.failed ==> (r matches Ok(n) && n as nat == self@.frames()),
    {
        if self.failed {
            Err(AudioError::ContainerWriteError)
        } else {
            Ok(self.frames_written())
        }
    }
}

} // verus!
