//! Stream configuration negotiation and WAV header derivation.
//!
//! A session commits to the first supported-configuration range the device
//! reports, at that range's maximum sample rate. Only 32-bit float and
//! 16-bit signed integer samples are supported; anything else is a
//! configuration error, never a silent truncation.

use vstd::prelude::*;

verus! {

/// The two sample encodings the pipeline supports.
#[derive(Clone, Copy, PartialEq, Eq, Structural, Debug)]
pub enum SampleFormat {
    Float32,
    Int16,
}

/// A sample encoding as the device reports it: the two supported ones,
/// or anything else, which the session must reject explicitly.
#[derive(Clone, Copy, PartialEq, Eq, Structural, Debug)]
pub enum ReportedFormat {
    Float32,
    Int16,
    Other,
}

/// One supported-configuration range reported by a device: a channel
/// count, a sample-rate range and a sample encoding.
#[derive(Clone, Copy, PartialEq, Eq, Structural, Debug)]
pub struct SupportedRange {
    pub channels: u16,
    pub min_rate: u32,
    pub max_rate: u32,
    pub format: ReportedFormat,
}

/// The configuration a session commits to for its whole lifetime.
#[derive(Clone, Copy, PartialEq, Eq, Structural, Debug)]
pub struct StreamConfig {
    pub channels: u16,
    pub sample_rate: u32,
    pub format: SampleFormat,
}

impl StreamConfig {
    /// A usable configuration has at least one channel and a positive rate.
    pub open spec fn wf(self) -> bool {
        self.channels >= 1 && self.sample_rate >= 1
    }
}

/// Why no configuration could be committed to. Each of these is fatal to
/// the session: there is no fallback search.
#[derive(Clone, Copy, PartialEq, Eq, Structural, Debug)]
pub enum SessionError {
    /// The device reported no supported-configuration range at all.
    NoConfig,
    /// The first reported range carries a sample encoding outside
    /// {Float32, Int16}.
    UnsupportedFormat,
    /// The first reported range has no channel or a zero sample rate.
    InvalidConfig,
}

/// The negotiation policy: commit to the first reported range at its
/// maximum sample rate, rejecting unsupported encodings and degenerate
/// ranges. Later ranges are never consulted.
pub open spec fn negotiation(ranges: Seq<SupportedRange>) -> Result<StreamConfig, SessionError> {
    if ranges.len() == 0 {
        Err(SessionError::NoConfig)
    } else {
        let first = ranges[0];
        match first.format {
            ReportedFormat::Other => Err(SessionError::UnsupportedFormat),
            ReportedFormat::Float32 => committed(first, SampleFormat::Float32),
            ReportedFormat::Int16 => committed(first, SampleFormat::Int16),
        }
    }
}

/// The configuration committed to from one range, once its encoding is
/// known to be supported.
pub open spec fn committed(range: SupportedRange, format: SampleFormat) -> Result<
    StreamConfig,
    SessionError,
> {
    if range.channels >= 1 && range.max_rate >= 1 {
        Ok(StreamConfig { channels: range.channels, sample_rate: range.max_rate, format })
    } else {
        Err(SessionError::InvalidConfig)
    }
}

/// Select the session's configuration from the device's reported ranges.
pub fn negotiate(ranges: &Vec<SupportedRange>) -> (r: Result<StreamConfig, SessionError>)
    ensures
        r == negotiation(ranges@),
        r matches Ok(c) ==> c.wf(),
{
    if ranges.len() == 0 {
        return Err(SessionError::NoConfig);
    }
    let first = ranges[0];
    let format = match first.format {
        ReportedFormat::Other => {
            return Err(SessionError::UnsupportedFormat);
        },
        ReportedFormat::Float32 => SampleFormat::Float32,
        ReportedFormat::Int16 => SampleFormat::Int16,
    };
    if first.channels >= 1 && first.max_rate >= 1 {
        Ok(StreamConfig { channels: first.channels, sample_rate: first.max_rate, format })
    } else {
        Err(SessionError::InvalidConfig)
    }
}

/// The sample-format tag a WAV header carries: IEEE float or signed
/// integer PCM.
#[derive(Clone, Copy, PartialEq, Eq, Structural, Debug)]
pub enum WavSampleFormat {
    Float,
    Int,
}

/// The fields a WAV header declares about its PCM payload.
#[derive(Clone, Copy, PartialEq, Eq, Structural, Debug)]
pub struct WavSpec {
    pub channels: u16,
    pub sample_rate: u32,
    pub bits_per_sample: u16,
    pub sample_format: WavSampleFormat,
}

/// Derive the WAV header for a negotiated configuration: channel count and
/// rate carry over; Float32 becomes 32-bit IEEE float, Int16 becomes
/// 16-bit signed integer.
pub fn wav_spec_for(config: &StreamConfig) -> (s: WavSpec)
    ensures
        s.channels == config.channels,
        s.sample_rate == config.sample_rate,
        config.format is Float32 ==> s.bits_per_sample == 32 && s.sample_format is Float,
        config.format is Int16 ==> s.bits_per_sample == 16 && s.sample_format is Int,
{
    match config.format {
        SampleFormat::Float32 => WavSpec {
            channels: config.channels,
            sample_rate: config.sample_rate,
            bits_per_sample: 32,
            sample_format: WavSampleFormat::Float,
        },
        SampleFormat::Int16 => WavSpec {
            channels: config.channels,
            sample_rate: config.sample_rate,
            bits_per_sample: 16,
            sample_format: WavSampleFormat::Int,
        },
    }
}

} // verus!
