use wavebridge::capture::Sink;
use wavebridge::format::{SampleFormat, StreamConfig, WavSpec};
use wavebridge::format::wav_spec_for;

fn int16_spec() -> WavSpec {
    wav_spec_for(&StreamConfig { channels: 1, sample_rate: 8000, format: SampleFormat::Int16 })
}

fn stereo_spec() -> WavSpec {
    wav_spec_for(&StreamConfig { channels: 2, sample_rate: 44100, format: SampleFormat::Float32 })
}

#[test]
fn finalized_sink_drops_late_frames() {
    // The handle is emptied before any frame arrives: the frame's samples
    // must never be written, with no panic and no state change.
    let mut sink = Sink::new(int16_spec());
    let taken = sink.finalize().expect("first finalize takes the recording");
    assert_eq!(taken.declared_sample_count(), 0);

    let wrote = sink.feed_frame(&vec![1, 2, 3]);
    assert!(!wrote);
    assert!(!sink.is_active());
    assert!(sink.finalize().is_none());
}

#[test]
fn frames_append_in_order() {
    let mut sink = Sink::new(int16_spec());
    assert!(sink.feed_frame(&vec![10, 20]));
    assert!(sink.feed_frame(&vec![30]));
    let taken = sink.finalize().expect("recording present");
    assert_eq!(taken.samples, vec![10, 20, 30]);
    assert_eq!(taken.header, int16_spec());
}

#[test]
fn uncontended_capture_counts_every_sample() {
    // K frames of S words each, no drops: the declared sample count is
    // K * S (here S already counts both interleaved channels).
    let spec = stereo_spec();
    let mut sink = Sink::new(spec);
    let frames: Vec<Vec<u32>> = vec![
        vec![1, 2, 3, 4, 5, 6, 7, 8],
        vec![9, 10, 11, 12, 13, 14, 15, 16],
        vec![17, 18, 19, 20, 21, 22, 23, 24],
    ];
    assert!(sink.feed_frames(&frames));
    let taken = sink.finalize().expect("recording present");
    assert_eq!(taken.declared_sample_count(), 3 * 8);
    let flat: Vec<u32> = (1..=24).collect();
    assert_eq!(taken.samples, flat);
    assert_eq!(taken.header, spec);
}

#[test]
fn empty_frames_leave_count_at_zero() {
    let mut sink = Sink::new(int16_spec());
    assert!(sink.feed_frame(&Vec::new()));
    assert!(sink.feed_frames(&Vec::new()));
    let taken = sink.finalize().expect("recording present");
    assert_eq!(taken.declared_sample_count(), 0);
}
