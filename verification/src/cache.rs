//! The latest-frame cache: the display thread's holder of the most recent
//! window.
//!
//! On each refresh it takes what the frame channel has waiting and keeps the
//! last window it received. Older windows are dropped on purpose.

use vstd::prelude::*;
use crate::channel::FrameReceiver;
use crate::delivery::retained;
use crate::sample::{silence_seq, Sample, SampleWindow};

verus! {

/// What one drain of a frame channel did.
#[derive(Clone, Copy, Debug, PartialEq, Eq, Structural)]
pub struct DrainReport {
    /// The number of windows that the channel reported as waiting when the
    /// drain began; the drain receives no more than that.
    pub waiting: usize,
    /// The number of windows received.
    pub taken: usize,
}

/// Takes one outcome of a receive: a window received replaces `latest`, and
/// `None` leaves it as it is. Returns whether a window was received.
pub fn keep_latest<const N: usize>(
    latest: &mut SampleWindow<N>,
    received: Option<SampleWindow<N>>,
) -> (kept: bool)
    ensures
        kept == received is Some,
        *final(latest) == match received {
            Some(window) => window,
            None => *old(latest),
        },
{
    match received {
        Some(window) => {
            *latest = window;
            true
        },
        None => false,
    }
}

/// Drains `rx` into `latest` without blocking: receives at most as many
/// windows as were waiting when the drain began, stops early when the
/// channel runs dry, and hands each outcome to [`keep_latest`], so that
/// `latest` ends up as the last window received. With nothing received,
/// `latest` is unchanged.
pub fn drain_latest<const N: usize>(rx: &FrameReceiver<N>, latest: &mut SampleWindow<N>) -> (report:
    DrainReport)
    ensures
        report.taken <= report.waiting,
        report.taken == 0 ==> *final(latest) == *old(latest),
{
    let waiting = rx.pending();
    let mut taken: usize = 0;
    while taken < waiting
        invariant
            taken <= waiting,
            taken == 0 ==> *latest == *old(latest),
        decreases waiting - taken,
    {
        if keep_latest(latest, rx.try_recv()) {
            taken = taken + 1;
        } else {
            break;
        }
    }
    DrainReport { waiting, taken }
}

/// The consumer-side holder of the most recent window of one frame channel.
#[derive(Debug)]
#[verifier::reject_recursive_types(N)]
pub struct LatestFrameCache<const N: usize> {
    rx: FrameReceiver<N>,
    latest: SampleWindow<N>,
}

impl<const N: usize> View for LatestFrameCache<N> {
    type V = Seq<Sample>;

    /// The window held.
    closed spec fn view(&self) -> Seq<Sample> {
        self.latest@
    }
}

impl<const N: usize> LatestFrameCache<N> {
    /// A cache on the receiving end `rx`, holding a silent window.
    pub fn new(rx: FrameReceiver<N>) -> (cache: LatestFrameCache<N>)
        ensures
            cache@ == silence_seq(N as nat),
    {
        LatestFrameCache { rx, latest: SampleWindow::silent() }
    }

    /// Takes `window` as the most recent one.
    pub fn observe(&mut self, window: SampleWindow<N>)
        ensures
            final(self)@ == window@,
    {
        self.latest = window;
    }

    /// Takes a batch of windows, oldest first, and keeps the last of them;
    /// an empty batch changes nothing.
    pub fn absorb(&mut self, batch: &[SampleWindow<N>])
        ensures
            final(self)@ == retained(old(self)@, batch@.map_values(|w: SampleWindow<N>| w@)),
    {
        let n = batch.len();
        if n > 0 {
            self.latest = batch[n - 1];
        }
    }

    /// Drains the channel into the cache, as [`drain_latest`] does.
    pub fn refresh(&mut self) -> (report: DrainReport)
        ensures
            report.taken <= report.waiting,
            report.taken == 0 ==> final(self)@ == old(self)@,
    {
        let mut latest = self.latest;
        let report = drain_latest(&self.rx, &mut latest);
        self.latest = latest;
        report
    }

    /// The window held: the last one received, or silence before the first.
    pub fn latest_window(&self) -> (window: SampleWindow<N>)
        ensures
            window@ == self@,
    {
        self.latest
    }
}

} // verus!
