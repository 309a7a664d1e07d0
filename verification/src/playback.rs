//! The playback buffer and the playback timing arithmetic.
//!
//! A whole WAV file is decoded up front into one ordered run of sample
//! words; the output callback drains it from the front, one frame at a
//! time. When the buffer runs out mid-frame the rest of the frame is
//! filled with silence (the zero word): an exhausted buffer yields
//! silence forever rather than failing, so a device that asks for more
//! frames than the file holds is always answered.
//!
//! Sample words are raw 32-bit words as in [`crate::capture`]: the bit
//! pattern of a 32-bit float sample, or a 16-bit integer sample widened
//! to a word. The zero word is silence in both encodings.

use vstd::prelude::*;

verus! {

/// A frame's worth of silence: `n` zero words.
pub open spec fn silence(n: int) -> Seq<u32> {
    Seq::new(n as nat, |i: int| 0u32)
}

/// What one frame of length `n` holds when the buffer still has the
/// words `rem` in front: the front of `rem`, padded with silence once
/// `rem` runs out.
pub open spec fn frame_fill(rem: Seq<u32>, n: int) -> Seq<u32> {
    if n <= rem.len() {
        rem.take(n)
    } else {
        rem + silence(n - rem.len())
    }
}

/// The decoded file, drained from the front by the output callback.
pub struct PlaybackBuffer {
    samples: Vec<u32>,
    pos: usize,
}

impl PlaybackBuffer {
    /// The cursor never runs past the end of the decoded samples.
    pub closed spec fn wf(self) -> bool {
        self.pos <= self.samples@.len()
    }

    /// The sample words not yet handed to the device.
    pub closed spec fn remaining(self) -> Seq<u32> {
        self.samples@.skip(self.pos as int)
    }

    /// Wrap a decoded file, with every sample word still to be played.
    pub fn new(samples: Vec<u32>) -> (b: PlaybackBuffer)
        ensures
            b.wf(),
            b.remaining() == samples@,
    {
        let b = PlaybackBuffer { samples, pos: 0 };
        proof {
            assert(b.remaining() =~= b.samples@);
        }
        b
    }

    /// How many sample words are still to be played.
    pub fn remaining_len(&self) -> (n: usize)
        requires
            self.wf(),
        ensures
            n == self.remaining().len(),
    {
        self.samples.len() - self.pos
    }

    /// Whether the file has been drained completely.
    pub fn exhausted(&self) -> (r: bool)
        requires
            self.wf(),
        ensures
            r == (self.remaining().len() == 0),
    {
        self.pos == self.samples.len()
    }

    /// The next sample word for the device: the front of the buffer, or
    /// silence once the buffer is exhausted. An exhausted buffer stays
    /// exhausted and keeps yielding silence.
    pub fn next_sample(&mut self) -> (s: u32)
        requires
            old(self).wf(),
        ensures
            final(self).wf(),
            old(self).remaining().len() > 0 ==> s == old(self).remaining()[0]
                && final(self).remaining() == old(self).remaining().skip(1),
            old(self).remaining().len() == 0 ==> s == 0
                && final(self).remaining() == old(self).remaining(),
    {
        if self.pos < self.samples.len() {
            let s = self.samples[self.pos];
            self.pos = self.pos + 1;
            proof {
                assert(self.remaining() =~= old(self).remaining().skip(1));
            }
            s
        } else {
            0
        }
    }

    /// Fill one frame of `n` output slots: the front of the buffer first,
    /// then silence once the buffer runs out. The frame always comes back
    /// full — the chosen policy for a device that outruns the file.
    pub fn fill_frame(&mut self, n: usize) -> (frame: Vec<u32>)
        requires
            old(self).wf(),
        ensures
            final(self).wf(),
            frame@.len() == n,
            frame@ == frame_fill(old(self).remaining(), n as int),
            final(self).remaining() == if n <= old(self).remaining().len() {
                old(self).remaining().skip(n as int)
            } else {
                Seq::<u32>::empty()
            },
    {
        let mut frame: Vec<u32> = Vec::new();
        let ghost rem = self.remaining();
        while frame.len() < n
            invariant
                self.wf(),
                rem == old(self).remaining(),
                frame@.len() <= n,
                frame@ == frame_fill(rem, frame@.len() as int),
                self.remaining() == if frame@.len() <= rem.len() {
                    rem.skip(frame@.len() as int)
                } else {
                    Seq::<u32>::empty()
                },
            decreases n - frame@.len(),
        {
            let ghost k = frame@.len() as int;
            let s = self.next_sample();
            frame.push(s);
            proof {
                if k < rem.len() {
                    assert(rem.skip(k)[0] == rem[k]);
                    assert(rem.skip(k).skip(1) =~= rem.skip(k + 1));
                    assert(frame_fill(rem, k) + seq![rem[k]] =~= frame_fill(rem, k + 1));
                } else {
                    assert(frame_fill(rem, k) + seq![0u32] =~= frame_fill(rem, k + 1));
                    if k + 1 > rem.len() && k <= rem.len() {
                        assert(rem.skip(k) =~= Seq::<u32>::empty());
                    }
                }
            }
        }
        frame
    }
}

/// How many per-channel frames a recording of `total_samples` interleaved
/// samples holds.
pub fn duration_frames(total_samples: usize, channels: u16) -> (n: usize)
    requires
        channels >= 1,
    ensures
        n == total_samples as int / channels as int,
{
    total_samples / (channels as usize)
}

/// How long, in whole seconds, the controlling thread waits for playback
/// of `frames` per-channel frames at `sample_rate` frames per second —
/// the drain-time estimate, truncated as integer division truncates.
pub fn sleep_seconds(frames: u64, sample_rate: u32) -> (r: u64)
    requires
        sample_rate >= 1,
    ensures
        r == frames as int / sample_rate as int,
{
    frames / (sample_rate as u64)
}

} // verus!
