use std::cell::RefCell;
use std::io::Cursor;
use std::sync::mpsc::{self, Receiver, Sender};

use gita_audio::capture::CaptureStage;
use gita_audio::error::AudioError;
use gita_audio::format::BatchFormat;
use gita_audio::session::RecordingState;
use gita_audio::writer::{BatchAction, CloseAction, WriterStage};

struct Batch {
    samples: Vec<f32>,
    format: BatchFormat,
}

/// What the writer left behind: the finalized container's bytes, if any
/// container was opened, and the frames counted.
struct Written {
    file: Option<Vec<u8>>,
    frames: u64,
}

/// The writer's body: the library decides, hound writes (into memory).
fn run_writer(rx: Receiver<Batch>) -> Written {
    let mut stage = WriterStage::new();
    let mut buf: Vec<u8> = Vec::new();
    let mut writer: Option<hound::WavWriter<Cursor<&mut Vec<u8>>>> = None;
    while let Ok(b) = rx.recv() {
        match stage.on_batch(b.format) {
            BatchAction::Stop => break,
            BatchAction::OpenContainer(spec) => {
                let wav = hound::WavSpec {
                    channels: spec.channels,
                    sample_rate: spec.sample_rate,
                    bits_per_sample: spec.bits_per_sample,
                    sample_format: hound::SampleFormat::Float,
                };
                writer = None;
                writer = hound::WavWriter::new(Cursor::new(&mut buf), wav).ok();
                stage.container_opened(spec, writer.is_some());
            }
            BatchAction::Append => {}
        }
        if let Some(w) = writer.as_mut() {
            let mut n: u64 = 0;
            let mut failed = false;
            for s in b.samples {
                if w.write_sample(s).is_err() {
                    failed = true;
                    break;
                }
                n += 1;
            }
            stage.samples_appended(n, failed);
            if failed {
                break;
            }
        }
    }
    let finalized = match (stage.on_close(), writer) {
        (CloseAction::Finalize, Some(w)) => {
            w.finalize().unwrap();
            true
        }
        _ => false,
    };
    let file = if finalized { Some(buf) } else { None };
    Written { file, frames: stage.frames_written() }
}

type Session = RecordingState<Sender<()>, Receiver<Batch>>;

/// Stops the session; joining the writer runs its body to completion.
fn stop_and_join(st: &mut Session) -> (Result<i32, AudioError>, Option<Written>) {
    let written = RefCell::new(None);
    let r = st.stop(
        |tx: Sender<()>| {
            let _ = tx.send(());
        },
        |rx: Receiver<Batch>| *written.borrow_mut() = Some(run_writer(rx)),
    );
    (r, written.into_inner())
}

#[test]
fn recording_without_hardware_creates_no_file() {
    let mut st: Session = RecordingState::new();
    let started = st.start("/tmp/x.wav", move || {
        let (data_tx, data_rx) = mpsc::channel::<Batch>();
        let (stop_tx, _stop_rx) = mpsc::channel::<()>();
        // No input device: the capture stage stops at once, dropping its sender.
        let mut stage = CaptureStage::new();
        assert!(stage.open(None).is_err());
        assert_eq!(stage.batch_format(), None);
        drop(data_tx);
        (stop_tx, data_rx)
    });
    assert_eq!(started, Ok(()));
    let (r, written) = stop_and_join(&mut st);
    assert_eq!(r, Ok(0));
    let written = written.unwrap();
    assert!(written.file.is_none());
    assert_eq!(written.frames, 0);
}

#[test]
fn batches_sent_through_the_channel_reach_the_container() {
    let fmt = BatchFormat { sample_rate: 48000, channel_count: 2 };
    let (data_tx, data_rx) = mpsc::channel::<Batch>();
    let mut st: Session = RecordingState::new();
    let started = st.start("/tmp/batches.wav", move || {
        let (stop_tx, _stop_rx) = mpsc::channel::<()>();
        (stop_tx, data_rx)
    });
    assert_eq!(started, Ok(()));

    let sizes = [256usize, 64, 1024, 2];
    let mut sent: Vec<f32> = Vec::new();
    for (k, &n) in sizes.iter().enumerate() {
        let samples: Vec<f32> = (0..n).map(|i| ((i + k) % 200) as f32 / 100.0 - 1.0).collect();
        sent.extend_from_slice(&samples);
        data_tx.send(Batch { samples, format: fmt }).unwrap();
    }
    drop(data_tx);

    let (r, written) = stop_and_join(&mut st);
    assert_eq!(r, Ok(0));
    let written = written.unwrap();
    let total: usize = sizes.iter().sum();
    assert_eq!(written.frames, (total / 2) as u64);

    let mut reader = hound::WavReader::new(Cursor::new(written.file.unwrap())).unwrap();
    let spec = reader.spec();
    assert_eq!(spec.channels, 2);
    assert_eq!(spec.sample_rate, 48000);
    assert_eq!(spec.bits_per_sample, 32);
    assert_eq!(spec.sample_format, hound::SampleFormat::Float);
    assert_eq!(reader.duration() as usize, total / 2);
    let back: Vec<f32> = reader.samples::<f32>().map(|s| s.unwrap()).collect();
    assert_eq!(back, sent);
}
