use gita_audio::error::AudioError;
use gita_audio::format::BatchFormat;
use gita_audio::writer::{container_spec, BatchAction, CloseAction, ContainerSpec, WriterStage};

/// Feeds batches of the given sizes, every open and write succeeding.
fn feed(w: &mut WriterStage, fmt: BatchFormat, lens: &[u64]) {
    for &n in lens {
        match w.on_batch(fmt) {
            BatchAction::OpenContainer(spec) => {
                w.container_opened(spec, true);
                w.samples_appended(n, false);
            }
            BatchAction::Append => w.samples_appended(n, false),
            BatchAction::Stop => panic!("writer stopped"),
        }
    }
}

#[test]
fn container_takes_first_batch_format() {
    let fmt = BatchFormat { sample_rate: 44100, channel_count: 1 };
    let expected = ContainerSpec { channels: 1, sample_rate: 44100, bits_per_sample: 32, float_samples: true };
    assert_eq!(container_spec(fmt), expected);
    let w = WriterStage::new();
    assert_eq!(w.on_batch(fmt), BatchAction::OpenContainer(expected));
}

#[test]
fn frames_equal_samples_over_channels() {
    let fmt = BatchFormat { sample_rate: 48000, channel_count: 2 };
    let mut w = WriterStage::new();
    let lens = [512u64, 480, 1024, 2];
    feed(&mut w, fmt, &lens);
    assert_eq!(w.samples_written(), 2018);
    assert_eq!(w.frames_written(), 1009);
    assert_eq!(w.on_batch(fmt), BatchAction::Append);
    assert_eq!(w.on_close(), CloseAction::Finalize);
    assert_eq!(w.outcome(), Ok(1009));
}

#[test]
fn no_batch_means_no_file() {
    let w = WriterStage::new();
    assert_eq!(w.on_close(), CloseAction::NoOutput);
    assert_eq!(w.frames_written(), 0);
    assert_eq!(w.outcome(), Ok(0));
}

#[test]
fn failed_open_is_retried_on_next_batch() {
    let fmt = BatchFormat { sample_rate: 8000, channel_count: 1 };
    let mut w = WriterStage::new();
    let spec = match w.on_batch(fmt) {
        BatchAction::OpenContainer(spec) => spec,
        other => panic!("unexpected {other:?}"),
    };
    w.container_opened(spec, false);
    assert_eq!(w.on_close(), CloseAction::NoOutput);
    assert_eq!(w.on_batch(fmt), BatchAction::OpenContainer(spec));
    w.container_opened(spec, true);
    w.samples_appended(10, false);
    assert_eq!(w.frames_written(), 10);
}

#[test]
fn write_failure_abandons_the_container() {
    let fmt = BatchFormat { sample_rate: 16000, channel_count: 1 };
    let mut w = WriterStage::new();
    feed(&mut w, fmt, &[100]);
    w.samples_appended(7, true);
    assert_eq!(w.samples_written(), 107);
    assert_eq!(w.on_batch(fmt), BatchAction::Stop);
    assert_eq!(w.on_close(), CloseAction::Abandon);
    assert_eq!(w.outcome(), Err(AudioError::ContainerWriteError));
}

#[test]
fn sample_count_overflow_fails_the_writer() {
    let fmt = BatchFormat { sample_rate: 16000, channel_count: 1 };
    let mut w = WriterStage::new();
    feed(&mut w, fmt, &[u64::MAX]);
    assert_eq!(w.samples_written(), u64::MAX);
    w.samples_appended(1, false);
    assert_eq!(w.samples_written(), u64::MAX);
    assert_eq!(w.on_close(), CloseAction::Abandon);
}
