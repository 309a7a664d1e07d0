use wavebridge::capture::Sink;
use wavebridge::format::{wav_spec_for, SampleFormat, StreamConfig};
use wavebridge::playback::{duration_frames, sleep_seconds, PlaybackBuffer};

#[test]
fn empty_file_zero_fills_every_frame() {
    // A zero-sample file: the chosen policy is to answer every frame
    // request with silence, never to fail.
    let mut buffer = PlaybackBuffer::new(Vec::new());
    assert!(buffer.exhausted());
    let frame = buffer.fill_frame(4);
    assert_eq!(frame, vec![0, 0, 0, 0]);
    assert!(buffer.exhausted());
    assert_eq!(buffer.fill_frame(2), vec![0, 0]);
}

#[test]
fn frames_drain_from_the_front() {
    let mut buffer = PlaybackBuffer::new(vec![1, 2, 3]);
    assert_eq!(buffer.remaining_len(), 3);
    assert_eq!(buffer.fill_frame(2), vec![1, 2]);
    assert_eq!(buffer.remaining_len(), 1);
    // The file runs out mid-frame: the rest of the frame is silence.
    assert_eq!(buffer.fill_frame(2), vec![3, 0]);
    assert!(buffer.exhausted());
}

#[test]
fn single_samples_pop_then_stay_silent() {
    let mut buffer = PlaybackBuffer::new(vec![5, 6]);
    assert_eq!(buffer.next_sample(), 5);
    assert_eq!(buffer.next_sample(), 6);
    assert_eq!(buffer.next_sample(), 0);
    assert_eq!(buffer.next_sample(), 0);
    assert!(buffer.exhausted());
}

#[test]
fn sleep_estimate_is_duration_over_rate() {
    // A mono 8000 Hz file with 16000 samples plays for about two seconds.
    assert_eq!(duration_frames(16000, 1), 16000);
    assert_eq!(sleep_seconds(16000, 8000), 2);
    // Truncating division, exactly as the drain-time estimate truncates.
    assert_eq!(sleep_seconds(16000 + 7999, 8000), 2);
    assert_eq!(duration_frames(9, 2), 4);
    assert_eq!(sleep_seconds(0, 44100), 0);
}

#[test]
fn captured_samples_play_back_unchanged() {
    // Record, finalize, then play the recording: the device sees exactly
    // the recorded words, in order, then silence.
    let spec = wav_spec_for(&StreamConfig {
        channels: 1,
        sample_rate: 8000,
        format: SampleFormat::Int16,
    });
    let mut sink = Sink::new(spec);
    sink.feed_frames(&vec![vec![100, 200], vec![300, 400]]);
    let taken = sink.finalize().expect("recording present");

    let mut buffer = PlaybackBuffer::new(taken.samples);
    assert_eq!(buffer.fill_frame(3), vec![100, 200, 300]);
    assert_eq!(buffer.fill_frame(3), vec![400, 0, 0]);
}
