//! The playback callback: what runs on the audio thread once per output
//! buffer.
//!
//! It pulls one sample pair per output frame from the track, writes the pair
//! to the first two channels of the frame, writes silence once the track
//! yields nothing, mirrors the front of the buffer into a window and offers
//! that window to the frame channel. It never blocks.

use vstd::prelude::*;
use vstd::arithmetic::div_mod::{lemma_fundamental_div_mod, lemma_fundamental_div_mod_converse};
use crate::channel::FrameSender;
use crate::decoder::{lemma_after_pulls, supplied, DecodedTrack, FrameFault, TrackView};
use crate::sample::{overlay, silence_seq, Sample, SampleWindow};

verus! {

/// The number of frames that a buffer of `len` samples holds when a frame has
/// `channels` samples; a last, partial frame counts.
pub open spec fn frames_in(len: int, channels: int) -> int {
    len / channels + if len % channels == 0 {
        0int
    } else {
        1int
    }
}

/// The sample that a render leaves at `index`: the left or right sample of
/// the frame's pair in the first two channels, what was there before in any
/// further channel, and silence in all channels of a frame without a pair.
pub open spec fn rendered_sample(
    before: Seq<Sample>,
    pairs: Seq<(Sample, Sample)>,
    channels: int,
    index: int,
) -> Sample {
    let frame = index / channels;
    let slot = index % channels;
    if frame < pairs.len() {
        if slot == 0 {
            pairs[frame].0
        } else if slot == 1 {
            pairs[frame].1
        } else {
            before[index]
        }
    } else {
        Sample::spec_silence()
    }
}

/// The buffer that a render leaves, from what it held before and the pairs
/// that the track holds.
pub open spec fn rendered(before: Seq<Sample>, pairs: Seq<(Sample, Sample)>, channels: int) -> Seq<
    Sample,
> {
    Seq::new(before.len(), |i: int| rendered_sample(before, pairs, channels, i))
}

/// What one render did.
#[derive(Clone, Copy, Debug, PartialEq, Eq, Structural)]
pub struct RenderReport {
    /// The number of pairs taken from the track.
    pub pairs: usize,
    /// Whether the track ran dry although its stream is not over.
    pub starved: bool,
    /// Whether the frame channel took the mirrored window.
    pub accepted: bool,
}

/// The state that the output stream's callback owns.
#[derive(Debug)]
#[verifier::reject_recursive_types(N)]
pub struct PlaybackCallback<const N: usize> {
    track: DecodedTrack,
    window: SampleWindow<N>,
    producer: FrameSender<N>,
    channels: u16,
}

impl<const N: usize> PlaybackCallback<N> {
    #[verifier::type_invariant]
    spec fn has_channel(self) -> bool {
        self.channels >= 1
    }

    /// The track being played.
    pub closed spec fn track(&self) -> TrackView {
        self.track@
    }

    /// The window that mirrors what was last written.
    pub closed spec fn window(&self) -> Seq<Sample> {
        self.window@
    }

    /// The number of samples in one output frame.
    pub closed spec fn spec_channels(&self) -> u16 {
        self.channels
    }

    /// The end of the frame channel that the callback sends into.
    pub closed spec fn producer(&self) -> FrameSender<N> {
        self.producer
    }

    /// The state for a stream of `channels` channels that plays `track` and
    /// mirrors into `producer`; the window starts out silent. `None` where
    /// `channels` is zero.
    pub fn new(track: DecodedTrack, channels: u16, producer: FrameSender<N>) -> (made: Option<
        PlaybackCallback<N>,
    >)
        ensures
            made is Some <==> channels >= 1,
            made matches Some(cb) ==> {
                &&& cb.track() == track@
                &&& cb.window() == silence_seq(N as nat)
                &&& cb.spec_channels() == channels
                &&& cb.producer() == producer
            },
    {
        if channels == 0 {
            None
        } else {
            Some(PlaybackCallback { track, window: SampleWindow::silent(), producer, channels })
        }
    }

    /// The number of samples in one output frame; at least one.
    #[verifier::when_used_as_spec(spec_channels)]
    pub fn channels(&self) -> (channels: u16)
        ensures
            channels == self.spec_channels(),
            channels >= 1,
    {
        proof {
            use_type_invariant(self);
        }
        self.channels
    }

    /// The window that mirrors what was last written.
    pub fn latest_window(&self) -> (window: SampleWindow<N>)
        ensures
            window@ == self.window(),
    {
        self.window
    }

    /// Whether the track has come to its end, so that every buffer from now
    /// on is all silence.
    pub fn is_exhausted(&self) -> (b: bool)
        ensures
            b == self.track().exhausted(),
    {
        self.track.is_exhausted()
    }

    /// The number of pairs to decode and hand over before a buffer of
    /// `out_len` samples is rendered, so that every frame of it finds a pair:
    /// zero once the stream is over.
    pub fn pairs_wanted(&self, out_len: usize) -> (wanted: usize)
        ensures
            wanted == self.track().missing(frames_in(out_len as int, self.spec_channels() as int)),
    {
        proof {
            use_type_invariant(self);
        }
        let width = self.channels as usize;
        let whole = out_len / width;
        let frames = if out_len % width == 0 {
            whole
        } else {
            proof {
                lemma_fundamental_div_mod(out_len as int, width as int);
                assert(whole < out_len) by (nonlinear_arith)
                    requires
                        out_len == width * whole + (out_len % width) as int,
                        out_len % width > 0,
                        width >= 1,
                        whole >= 0,
                ;
            }
            whole + 1
        };
        let held = self.track.buffered();
        if self.track.is_ended() || frames <= held {
            0
        } else {
            frames - held
        }
    }

    /// Hands the pairs of one more decoded frame to the track. The result
    /// says whether the track took them: it takes none once its stream is
    /// over.
    pub fn feed(&mut self, frame: &[(Sample, Sample)]) -> (taken: bool)
        ensures
            taken == !old(self).track().ended,
            final(self).track() == old(self).track().after_feed(frame@),
            final(self).window() == old(self).window(),
            final(self).spec_channels() == old(self).spec_channels(),
            final(self).producer() == old(self).producer(),
    {
        proof {
            use_type_invariant(&*self);
        }
        let mut track = DecodedTrack::exhausted(self.track.info());
        core::mem::swap(&mut self.track, &mut track);
        let taken = track.feed(frame);
        self.track = track;
        taken
    }

    /// Hands to the track what decoding the next frame gave, its pairs or the
    /// fault in their place: a frame with samples is taken, and a fault, or a
    /// frame without samples, ends the stream. While [`PlaybackCallback::pairs_wanted`] is above zero, each
    /// call brings it down.
    pub fn supply(&mut self, decoded: Result<&[(Sample, Sample)], FrameFault>)
        ensures
            final(self).track() == old(self).track().after_supply(supplied(decoded)),
            final(self).window() == old(self).window(),
            final(self).spec_channels() == old(self).spec_channels(),
            final(self).producer() == old(self).producer(),
    {
        proof {
            use_type_invariant(&*self);
        }
        let mut track = DecodedTrack::exhausted(self.track.info());
        core::mem::swap(&mut self.track, &mut track);
        track.supply(decoded);
        self.track = track;
    }

    /// Declares the stream behind the track over.
    pub fn finish(&mut self)
        ensures
            final(self).track() == old(self).track().after_finish(),
            final(self).window() == old(self).window(),
            final(self).spec_channels() == old(self).spec_channels(),
            final(self).producer() == old(self).producer(),
    {
        proof {
            use_type_invariant(&*self);
        }
        let mut track = DecodedTrack::exhausted(self.track.info());
        core::mem::swap(&mut self.track, &mut track);
        track.finish();
        self.track = track;
    }

    /// Fills one output buffer. Each frame of `out` takes the next pair of
    /// the track: left in its first channel, right in its second, further
    /// channels left as they were. A frame for which the track has no pair is
    /// all silence. The track loses the pairs taken, one per frame as far as
    /// it held them. The front of the buffer is then copied over the front of
    /// the window, and the window is offered to the frame channel once.
    pub fn render(&mut self, out: &mut [Sample]) -> (report: RenderReport)
        ensures
            final(out)@ == rendered(
                old(out)@,
                old(self).track().remaining,
                old(self).spec_channels() as int,
            ),
            final(self).track() == (TrackView {
                remaining: old(self).track().remaining.skip(report.pairs as int),
                ended: old(self).track().ended,
            }),
            final(self).window() == overlay(old(self).window(), final(out)@),
            final(self).spec_channels() == old(self).spec_channels(),
            final(self).producer() == old(self).producer(),
            report.pairs == vstd::math::min(
                frames_in(old(out)@.len() as int, old(self).spec_channels() as int),
                old(self).track().remaining.len() as int,
            ),
            report.starved == (!old(self).track().ended && old(self).track().remaining.len()
                < frames_in(old(out)@.len() as int, old(self).spec_channels() as int)),
    {
        proof {
            use_type_invariant(&*self);
        }
        let ghost start = self.track@;
        let ghost pairs = start.remaining;
        let ghost orig = out@;
        let ghost width = self.channels as int;
        let channels = self.channels as usize;
        let n = out.len();
        let mut track = DecodedTrack::exhausted(self.track.info());
        core::mem::swap(&mut self.track, &mut track);

        let mut i: usize = 0;
        let mut slot: usize = 0;
        let mut begun: usize = 0;
        let mut pulled: usize = 0;
        let mut current: Option<(Sample, Sample)> = None;
        let ghost mut frame: int = 0;
        while i < n
            invariant
                n == out@.len(),
                n == orig.len(),
                width == channels,
                width >= 1,
                pairs == start.remaining,
                i <= n,
                slot < channels,
                0 <= frame,
                i == frame * width + slot,
                begun == if slot == 0 {
                    frame
                } else {
                    frame + 1
                },
                pulled == vstd::math::min(begun as int, pairs.len() as int),
                track@ == start.after_pulls(begun as nat),
                slot != 0 ==> current == start.nth_pull(frame as nat),
                forall|j: int| 0 <= j < i ==> #[trigger] out@[j] == rendered_sample(orig, pairs, width, j),
                forall|j: int| i <= j < n ==> #[trigger] out@[j] == orig[j],
            decreases n - i,
        {
            proof {
                lemma_fundamental_div_mod_converse(i as int, width, frame, slot as int);
                lemma_after_pulls(start, frame as nat);
            }
            if slot == 0 {
                current = track.next();
                begun = begun + 1;
                if current.is_some() {
                    pulled = pulled + 1;
                }
            }
            match current {
                Some((left, right)) => {
                    if slot == 0 {
                        out[i] = left;
                    } else if slot == 1 {
                        out[i] = right;
                    }
                },
                None => {
                    out[i] = Sample::silence();
                },
            }
            i = i + 1;
            slot = slot + 1;
            if slot == channels {
                slot = 0;
                proof {
                    frame = frame + 1;
                }
            }
            assert(i == frame * width + slot) by (nonlinear_arith)
                requires
                    i - 1 == if slot == 0 {
                        (frame - 1) * width + (width - 1)
                    } else {
                        frame * width + (slot - 1)
                    },
            ;
        }
        proof {
            lemma_fundamental_div_mod_converse(n as int, width, frame, slot as int);
            lemma_after_pulls(start, begun as nat);
            assert(pairs.skip(pairs.len() as int) =~= Seq::<(Sample, Sample)>::empty());
            assert(out@ =~= rendered(orig, pairs, width));
        }
        let starved = !track.is_ended() && pulled < begun;
        self.track = track;
        let mut window = self.window;
        window.fill_from(out);
        self.window = window;
        let accepted = self.producer.send(window);
        RenderReport { pairs: pulled, starved, accepted }
    }
}

} // verus!
