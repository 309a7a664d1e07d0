//! The capture-side sink: a lockable slot holding an in-memory recording.
//!
//! During capture the slot is shared between the real-time callback
//! (producer) and the controlling thread (owner). The callback appends
//! whole frames while the slot is occupied; the controlling thread takes
//! the recording out exactly once, at shutdown. Once the slot is empty,
//! later frames are dropped without touching any state — the invariant
//! behind a safe teardown.
//!
//! Samples are carried as raw 32-bit words in wire order: the bit pattern
//! of a 32-bit float sample, or a 16-bit integer sample widened to a word.
//! The numeric meaning of a word is the codec's and the device layer's
//! business, not this module's.

use vstd::prelude::*;

use crate::format::WavSpec;

verus! {

/// An in-memory recording: the WAV header it will be written under, and
/// the raw sample words in arrival order.
pub struct CaptureBuffer {
    pub header: WavSpec,
    pub samples: Vec<u32>,
}

impl CaptureBuffer {
    /// The sample count the recording's WAV header will declare.
    pub fn declared_sample_count(&self) -> (n: usize)
        ensures
            n == self.samples@.len(),
    {
        self.samples.len()
    }
}

/// The shared slot: occupied by a recording while capture runs, empty
/// once the controlling thread has taken the recording out.
pub struct Sink {
    slot: Option<CaptureBuffer>,
}

impl Sink {
    /// Whether the slot still holds a recording.
    pub closed spec fn is_open(self) -> bool {
        self.slot is Some
    }

    /// The header of the held recording (meaningful only while open).
    pub closed spec fn header(self) -> WavSpec {
        self.slot->0.header
    }

    /// The sample words recorded so far (meaningful only while open).
    pub closed spec fn samples(self) -> Seq<u32> {
        self.slot->0.samples@
    }

    /// Open a sink around an empty recording under the given header.
    pub fn new(header: WavSpec) -> (s: Sink)
        ensures
            s.is_open(),
            s.header() == header,
            s.samples() == Seq::<u32>::empty(),
    {
        Sink { slot: Some(CaptureBuffer { header, samples: Vec::new() }) }
    }

    /// Append one frame of sample words to the recording. A frame that
    /// arrives after the sink was emptied is dropped whole: nothing is
    /// written and the sink is left exactly as it was. Returns whether
    /// the frame was written.
    pub fn feed_frame(&mut self, frame: &Vec<u32>) -> (written: bool)
        ensures
            written == old(self).is_open(),
            final(self).is_open() == old(self).is_open(),
            old(self).is_open() ==> final(self).header() == old(self).header()
                && final(self).samples() == old(self).samples() + frame@,
            !old(self).is_open() ==> *final(self) == *old(self),
    {
        match self.slot.take() {
            Some(mut buf) => {
                let ghost orig = buf.samples@;
                let mut i: usize = 0;
                while i < frame.len()
                    invariant
                        i <= frame.len(),
                        buf.header == old(self).header(),
                        buf.samples@ == orig + frame@.take(i as int),
                    decreases frame.len() - i,
                {
                    buf.samples.push(frame[i]);
                    proof {
                        assert(orig + frame@.take(i as int) + seq![frame@[i as int]] =~= orig
                            + frame@.take(i as int + 1));
                    }
                    i += 1;
                }
                proof {
                    assert(frame@.take(frame@.len() as int) =~= frame@);
                }
                self.slot = Some(buf);
                true
            },
            None => false,
        }
    }

    /// Whether the slot still holds a recording, as the callback would
    /// ask before writing.
    pub fn is_active(&self) -> (r: bool)
        ensures
            r == self.is_open(),
    {
        self.slot.is_some()
    }

    /// Take the recording out, leaving the slot empty. On an already
    /// emptied sink there is nothing to take and the call returns `None`.
    pub fn finalize(&mut self) -> (taken: Option<CaptureBuffer>)
        ensures
            !final(self).is_open(),
            old(self).is_open() ==> (taken matches Some(buf) && buf.header == old(self).header()
                && buf.samples@ == old(self).samples()),
            !old(self).is_open() ==> taken is None,
    {
        self.slot.take()
    }

    /// Append a whole run of frames in order, as the callback would over
    /// the course of an uncontended capture.
    pub fn feed_frames(&mut self, frames: &Vec<Vec<u32>>) -> (written: bool)
        ensures
            written == old(self).is_open(),
            final(self).is_open() == old(self).is_open(),
            old(self).is_open() ==> final(self).header() == old(self).header()
                && final(self).samples() == old(self).samples() + flatten_frames(
                frames@.map_values(|f: Vec<u32>| f@),
            ),
            !old(self).is_open() ==> *final(self) == *old(self),
    {
        let ghost all = frames@.map_values(|f: Vec<u32>| f@);
        if !self.is_active() {
            return false;
        }
        proof {
            assert(all.take(0) =~= Seq::<Seq<u32>>::empty());
            assert(self.samples() + flatten_frames(all.take(0)) =~= self.samples());
        }
        let mut i: usize = 0;
        while i < frames.len()
            invariant
                i <= frames.len(),
                all == frames@.map_values(|f: Vec<u32>| f@),
                self.is_open(),
                self.header() == old(self).header(),
                self.samples() == old(self).samples() + flatten_frames(all.take(i as int)),
            decreases frames.len() - i,
        {
            self.feed_frame(&frames[i]);
            proof {
                assert(all.take(i as int + 1).drop_last() =~= all.take(i as int));
                assert(all.take(i as int + 1).last() == all[i as int]);
            }
            i += 1;
        }
        proof {
            assert(all.take(all.len() as int) =~= all);
        }
        true
    }
}

/// All the sample words of a run of frames, in arrival order.
pub open spec fn flatten_frames(frames: Seq<Seq<u32>>) -> Seq<u32>
    decreases frames.len(),
{
    if frames.len() == 0 {
        Seq::empty()
    } else {
        flatten_frames(frames.drop_last()) + frames.last()
    }
}

/// Law: a capture that receives `K` frames of `S` sample words each and
/// drops none records exactly `K * S` sample words — so the finalized
/// recording's declared sample count is the frame count times the frame
/// size (interleaved channels included in `S`).
pub proof fn lemma_recorded_sample_count(frames: Seq<Seq<u32>>, s: nat)
    requires
        forall|i: int| 0 <= i < frames.len() ==> #[trigger] frames[i].len() == s,
    ensures
        flatten_frames(frames).len() == frames.len() * s,
    decreases frames.len(),
{
    if frames.len() > 0 {
        lemma_recorded_sample_count(frames.drop_last(), s);
        assert(frames.last().len() == s);
        assert((frames.len() - 1) * s + s == frames.len() * s) by (nonlinear_arith);
    }
}

} // verus!
