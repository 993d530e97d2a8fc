//! The decoded track: a single-pass cursor over the sample pairs of one
//! compressed file.
//!
//! Decoding itself is the caller's work. The caller probes the file once, to
//! open the track, and later hands over each further frame as the decoder
//! yields it. The track buffers the pairs, gives them out one at a time, in
//! order, and ends for good once the caller has said that the stream is over
//! and the buffer has run dry.

use vstd::prelude::*;
use crate::sample::Sample;

verus! {

/// Why a file could not be opened as a track.
#[derive(Clone, Copy, Debug, PartialEq, Eq, Structural)]
pub enum DecodeError {
    /// The file could not be read.
    UnreadableFile,
    /// The stream uses a format feature that the decoder does not support.
    UnsupportedFormat,
    /// The file is empty, or holds no frame of samples that decodes.
    CorruptStream,
}

/// What the decoder reported in place of a frame.
#[derive(Clone, Copy, Debug, PartialEq, Eq, Structural)]
pub enum FrameFault {
    /// The stream ended inside or before the frame.
    Truncated,
    /// The bytes do not form a valid frame.
    InvalidData,
    /// The frame uses a feature that the decoder does not support.
    Unsupported,
}

/// What the container header says of a track.
#[derive(Clone, Copy, Debug, PartialEq, Eq, Structural)]
pub struct TrackInfo {
    pub sample_rate: u32,
    pub channels: u16,
}

/// One decoded frame: its header data and its stereo sample pairs, left first.
#[derive(Debug)]
pub struct DecodedFrame {
    pub info: TrackInfo,
    pub pairs: Vec<(Sample, Sample)>,
}

/// What a first look at a file found.
#[derive(Debug)]
pub enum OpenProbe {
    /// The file could not be read.
    Unreadable,
    /// The file was read: its length in bytes, and what decoding its first
    /// frame gave.
    Stream { byte_len: usize, first: Result<DecodedFrame, FrameFault> },
}

/// The error that opening a track on `probe` gives, or `None` where it opens.
pub open spec fn open_error(probe: OpenProbe) -> Option<DecodeError> {
    match probe {
        OpenProbe::Unreadable => Some(DecodeError::UnreadableFile),
        OpenProbe::Stream { byte_len, first } => if byte_len == 0 {
            Some(DecodeError::CorruptStream)
        } else {
            match first {
                Err(FrameFault::Unsupported) => Some(DecodeError::UnsupportedFormat),
                Err(_) => Some(DecodeError::CorruptStream),
                Ok(frame) => if frame.pairs@.len() == 0 {
                    Some(DecodeError::CorruptStream)
                } else {
                    None
                },
            }
        },
    }
}

/// What was handed over in place of the next frame, as a value.
pub open spec fn supplied(decoded: Result<&[(Sample, Sample)], FrameFault>) -> Result<
    Seq<(Sample, Sample)>,
    FrameFault,
> {
    match decoded {
        Ok(pairs) => Ok(pairs@),
        Err(fault) => Err(fault),
    }
}

/// A track as a value: the pairs it still holds, oldest first, and whether the
/// stream behind it is known to be over.
pub struct TrackView {
    pub remaining: Seq<(Sample, Sample)>,
    pub ended: bool,
}

impl TrackView {
    /// What the next pull gives: the oldest pair, or `None` when none is held.
    pub open spec fn head(self) -> Option<(Sample, Sample)> {
        if self.remaining.len() > 0 {
            Some(self.remaining[0])
        } else {
            None
        }
    }

    /// The track after one pull.
    pub open spec fn after_pull(self) -> TrackView {
        if self.remaining.len() > 0 {
            TrackView { remaining: self.remaining.skip(1), ended: self.ended }
        } else {
            self
        }
    }

    /// The track after `n` pulls.
    pub open spec fn after_pulls(self, n: nat) -> TrackView
        decreases n,
    {
        if n == 0 {
            self
        } else {
            self.after_pulls((n - 1) as nat).after_pull()
        }
    }

    /// What the pull that follows `n` earlier pulls gives.
    pub open spec fn nth_pull(self, n: nat) -> Option<(Sample, Sample)> {
        self.after_pulls(n).head()
    }

    /// The track after a frame was handed over: an ended track ignores it.
    pub open spec fn after_feed(self, frame: Seq<(Sample, Sample)>) -> TrackView {
        if self.ended {
            self
        } else {
            TrackView { remaining: self.remaining + frame, ended: false }
        }
    }

    /// The track after the stream was declared over.
    pub open spec fn after_finish(self) -> TrackView {
        TrackView { remaining: self.remaining, ended: true }
    }

    /// The track after the caller handed over what decoding the next frame
    /// gave: a frame with samples is taken as by a feed; a fault, or a frame
    /// without samples, ends the stream.
    pub open spec fn after_supply(
        self,
        decoded: Result<Seq<(Sample, Sample)>, FrameFault>,
    ) -> TrackView {
        match decoded {
            Ok(pairs) => if pairs.len() > 0 {
                self.after_feed(pairs)
            } else {
                self.after_finish()
            },
            Err(_) => self.after_finish(),
        }
    }

    /// Whether the track will never yield a pair again.
    pub open spec fn exhausted(self) -> bool {
        self.ended && self.remaining.len() == 0
    }

    /// The number of pairs that the track lacks for `pairs` pulls to find a
    /// pair each, as far as more can still come: zero once the stream is
    /// over.
    pub open spec fn missing(self, pairs: int) -> int {
        if self.ended || pairs <= self.remaining.len() {
            0
        } else {
            pairs - self.remaining.len()
        }
    }
}

/// A single-pass cursor over the sample pairs of one file.
#[derive(Debug)]
pub struct DecodedTrack {
    info: TrackInfo,
    buffer: Vec<(Sample, Sample)>,
    pos: usize,
    ended: bool,
}

impl View for DecodedTrack {
    type V = TrackView;

    closed spec fn view(&self) -> TrackView {
        TrackView { remaining: self.buffer@.skip(self.pos as int), ended: self.ended }
    }
}

impl DecodedTrack {
    #[verifier::type_invariant]
    spec fn in_bounds(self) -> bool {
        self.pos <= self.buffer@.len()
    }

    pub closed spec fn spec_info(&self) -> TrackInfo {
        self.info
    }

    /// Opens a track on what a first look at the file found. It fails when the
    /// file could not be read, is empty, or gave no first frame with samples
    /// in it; otherwise the track starts out holding the pairs of that frame,
    /// with more to come.
    pub fn open(probe: OpenProbe) -> (opened: Result<DecodedTrack, DecodeError>)
        ensures
            match opened {
                Ok(track) => {
                    &&& open_error(probe) is None
                    &&& probe matches OpenProbe::Stream { first: Ok(frame), .. }
                        && track@ == (TrackView { remaining: frame.pairs@, ended: false })
                        && track.spec_info() == frame.info
                },
                Err(e) => open_error(probe) == Some(e),
            },
    {
        match probe {
            OpenProbe::Unreadable => Err(DecodeError::UnreadableFile),
            OpenProbe::Stream { byte_len, first } => {
                if byte_len == 0 {
                    return Err(DecodeError::CorruptStream);
                }
                match first {
                    Err(FrameFault::Unsupported) => Err(DecodeError::UnsupportedFormat),
                    Err(_) => Err(DecodeError::CorruptStream),
                    Ok(frame) => {
                        if frame.pairs.len() == 0 {
                            return Err(DecodeError::CorruptStream);
                        }
                        let track = DecodedTrack {
                            info: frame.info,
                            buffer: frame.pairs,
                            pos: 0,
                            ended: false,
                        };
                        assert(track.buffer@.skip(0) =~= track.buffer@);
                        Ok(track)
                    },
                }
            },
        }
    }

    /// A track that holds nothing and whose stream is over.
    pub fn exhausted(info: TrackInfo) -> (track: DecodedTrack)
        ensures
            track@ == (TrackView { remaining: Seq::empty(), ended: true }),
            track.spec_info() == info,
    {
        let track = DecodedTrack { info, buffer: Vec::new(), pos: 0, ended: true };
        assert(track.buffer@.skip(0) =~= Seq::empty());
        track
    }

    /// What the container header said of the track.
    #[verifier::when_used_as_spec(spec_info)]
    pub fn info(&self) -> (info: TrackInfo)
        ensures
            info == self.spec_info(),
    {
        self.info
    }

    /// Pulls the next pair. `None` means that no pair is held: for good once
    /// the stream is over, else until the next frame is handed over.
    pub fn next(&mut self) -> (pair: Option<(Sample, Sample)>)
        ensures
            pair == old(self)@.head(),
            final(self)@ == old(self)@.after_pull(),
            final(self).spec_info() == old(self).spec_info(),
    {
        proof {
            use_type_invariant(&*self);
        }
        if self.pos < self.buffer.len() {
            let pair = self.buffer[self.pos];
            assert(self.buffer@.skip(self.pos as int).skip(1) =~= self.buffer@.skip(
                self.pos as int + 1,
            ));
            self.pos = self.pos + 1;
            Some(pair)
        } else {
            None
        }
    }

    /// Hands over the pairs of one more frame. A track whose stream is over
    /// takes none; the result says whether the frame was taken.
    pub fn feed(&mut self, frame: &[(Sample, Sample)]) -> (taken: bool)
        ensures
            taken == !old(self)@.ended,
            final(self)@ == old(self)@.after_feed(frame@),
            final(self).spec_info() == old(self).spec_info(),
    {
        proof {
            use_type_invariant(&*self);
        }
        if self.ended {
            return false;
        }
        let ghost before = self@.remaining;
        // The buffer is worked on outside the track and put back when done.
        let mut pos = self.pos;
        let mut buffer: Vec<(Sample, Sample)> = Vec::new();
        self.pos = 0;
        core::mem::swap(&mut self.buffer, &mut buffer);
        if pos == buffer.len() {
            pos = 0;
            buffer.clear();
        }
        assert(buffer@.skip(pos as int) =~= before);
        let mut i: usize = 0;
        while i < frame.len()
            invariant
                i <= frame@.len(),
                pos <= buffer@.len(),
                buffer@.skip(pos as int) == before + frame@.take(i as int),
            decreases frame@.len() - i,
        {
            let ghost held = buffer@;
            buffer.push(frame[i]);
            assert(buffer@.skip(pos as int) =~= held.skip(pos as int).push(frame@[i as int]));
            assert(frame@.take(i as int + 1) =~= frame@.take(i as int).push(frame@[i as int]));
            assert((before + frame@.take(i as int)).push(frame@[i as int]) =~= before
                + frame@.take(i as int + 1));
            i += 1;
        }
        assert(frame@.take(frame@.len() as int) =~= frame@);
        self.buffer = buffer;
        self.pos = pos;
        true
    }

    /// Takes what decoding the next frame gave: its pairs, or the fault in
    /// their place. A frame with samples is taken as by
    /// [`DecodedTrack::feed`]; a fault, or a frame without samples, ends the
    /// stream as by [`DecodedTrack::finish`].
    pub fn supply(&mut self, decoded: Result<&[(Sample, Sample)], FrameFault>)
        ensures
            final(self)@ == old(self)@.after_supply(supplied(decoded)),
            final(self).spec_info() == old(self).spec_info(),
    {
        match decoded {
            Ok(pairs) => {
                if pairs.len() > 0 {
                    self.feed(pairs);
                } else {
                    self.finish();
                }
            },
            Err(_) => {
                self.finish();
            },
        }
    }

    /// Declares the stream over: no further frame will be taken.
    pub fn finish(&mut self)
        ensures
            final(self)@ == old(self)@.after_finish(),
            final(self).spec_info() == old(self).spec_info(),
    {
        proof {
            use_type_invariant(&*self);
        }
        self.ended = true;
    }

    /// The number of pairs held.
    pub fn buffered(&self) -> (n: usize)
        ensures
            n == self@.remaining.len(),
    {
        proof {
            use_type_invariant(self);
        }
        self.buffer.len() - self.pos
    }

    /// Whether the stream behind the track is over.
    pub fn is_ended(&self) -> (b: bool)
        ensures
            b == self@.ended,
    {
        self.ended
    }

    /// Whether the track will never yield a pair again.
    pub fn is_exhausted(&self) -> (b: bool)
        ensures
            b == self@.exhausted(),
    {
        proof {
            use_type_invariant(self);
        }
        self.ended && self.pos == self.buffer.len()
    }

    /// Whether the caller should decode another frame before `pairs` pairs
    /// are pulled: the stream is not over and fewer than that are held.
    pub fn wants_frame(&self, pairs: usize) -> (wanted: bool)
        ensures
            wanted == (self@.missing(pairs as int) > 0),
    {
        proof {
            use_type_invariant(self);
        }
        !self.ended && self.buffer.len() - self.pos < pairs
    }
}

/// The state after `n` pulls: the first `n` pairs are gone, or all of them
/// where the track held fewer, and whether the stream is over has not changed.
pub proof fn lemma_after_pulls(track: TrackView, n: nat)
    ensures
        track.after_pulls(n).ended == track.ended,
        track.after_pulls(n).remaining == if n <= track.remaining.len() {
            track.remaining.skip(n as int)
        } else {
            Seq::empty()
        },
    decreases n,
{
    if n == 0 {
        assert(track.remaining.skip(0) =~= track.remaining);
    } else {
        let m = (n - 1) as nat;
        lemma_after_pulls(track, m);
        let prev = track.after_pulls(m);
        if n <= track.remaining.len() {
            assert(track.remaining.skip(m as int).skip(1) =~= track.remaining.skip(n as int));
        } else if m <= track.remaining.len() {
            assert(track.remaining.skip(m as int) =~= Seq::<(Sample, Sample)>::empty());
        }
    }
}

/// A track that holds `k` pairs gives them out, in order, on the next `k`
/// pulls, and gives `None` on every pull after those.
pub proof fn law_pulls_give_each_pair_then_none(track: TrackView, n: nat)
    ensures
        n < track.remaining.len() ==> track.nth_pull(n) == Some(track.remaining[n as int]),
        n >= track.remaining.len() ==> track.nth_pull(n) is None,
{
    lemma_after_pulls(track, n);
}

/// Handing over what the decoder gave always gets the caller closer to a
/// track that lacks nothing: the stream is then over, or the track holds more
/// pairs than before. So a caller that decodes while pairs are missing stops
/// after finitely many frames.
pub proof fn law_supply_makes_progress(
    track: TrackView,
    decoded: Result<Seq<(Sample, Sample)>, FrameFault>,
    pairs: int,
)
    requires
        track.missing(pairs) > 0,
    ensures
        track.after_supply(decoded).ended || track.after_supply(decoded).remaining.len()
            > track.remaining.len(),
        track.after_supply(decoded).missing(pairs) < track.missing(pairs),
        track.after_supply(decoded).remaining.take(track.remaining.len() as int)
            == track.remaining,
{
    let after = track.after_supply(decoded);
    assert(after.remaining.take(track.remaining.len() as int) =~= track.remaining);
}

/// Once the stream is over and the last pair is pulled, nothing brings the
/// track back: pulls, further frames and a second end of stream all leave it
/// as it is.
pub proof fn law_exhausted_track_stays_exhausted(
    track: TrackView,
    frame: Seq<(Sample, Sample)>,
    decoded: Result<Seq<(Sample, Sample)>, FrameFault>,
)
    requires
        track.exhausted(),
    ensures
        track.head() is None,
        track.after_pull() == track,
        track.after_feed(frame) == track,
        track.after_supply(decoded) == track,
        track.after_finish() == track,
{
}

} // verus!
