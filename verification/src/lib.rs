//! A minimal streaming bridge between a real-time audio device and WAV files.
//!
//! Capture: device frames flow through a shared [`capture::Sink`] into an
//! in-memory recording that is written out as a WAV file once finalized.
//! Playback: a decoded WAV file is held in a [`playback::PlaybackBuffer`]
//! that the output callback drains frame by frame.
//!
//! The device and file boundaries themselves (audio host, WAV codec,
//! console) live outside this crate; this crate holds the negotiation
//! policy, the header derivation, the sink hand-off, the buffer fill
//! policy and the timing arithmetic, all with verified contracts.

pub mod capture;
pub mod console;
pub mod format;
pub mod playback;
