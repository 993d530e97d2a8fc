//! What the display shows: the window of whichever session is active.
//!
//! While a track plays, the display follows the output; otherwise it follows
//! the input. The two never mix, so the choice is a tagged value.

use vstd::prelude::*;
use crate::cache::LatestFrameCache;
use crate::player::{AudioPlayer, PlayerPhase};
use crate::sample::SampleWindow;

verus! {

/// Which session the display follows.
#[derive(Clone, Copy, Debug, PartialEq, Eq, Structural)]
pub enum DisplaySource {
    Capturing,
    Playing,
}

/// The window to display, tagged with the session it comes from. Capture
/// windows hold `C` samples and playback windows `P`.
#[derive(Clone, Copy, Debug, PartialEq, Eq)]
pub enum DisplayFrame<const C: usize, const P: usize> {
    Capturing(SampleWindow<C>),
    Playing(SampleWindow<P>),
}

/// The session to follow when the player is in `phase`: playback while a
/// stream plays, capture otherwise.
pub open spec fn source_for(phase: PlayerPhase) -> DisplaySource {
    if phase is Playing {
        DisplaySource::Playing
    } else {
        DisplaySource::Capturing
    }
}

impl<const C: usize, const P: usize> DisplayFrame<C, P> {
    /// The session that the frame comes from.
    pub open spec fn spec_source(self) -> DisplaySource {
        match self {
            DisplayFrame::Capturing(_) => DisplaySource::Capturing,
            DisplayFrame::Playing(_) => DisplaySource::Playing,
        }
    }

    /// The session that the frame comes from.
    #[verifier::when_used_as_spec(spec_source)]
    pub fn source(self) -> (source: DisplaySource)
        ensures
            source == self.spec_source(),
    {
        match self {
            DisplayFrame::Capturing(_) => DisplaySource::Capturing,
            DisplayFrame::Playing(_) => DisplaySource::Playing,
        }
    }
}

/// The session to follow when the player is in `phase`.
pub fn display_source(phase: PlayerPhase) -> (source: DisplaySource)
    ensures
        source == source_for(phase),
{
    match phase {
        PlayerPhase::Playing { .. } => DisplaySource::Playing,
        _ => DisplaySource::Capturing,
    }
}

/// The window to display now: the player's latest window while it plays,
/// else the capture cache's.
pub fn display_frame<const C: usize, const P: usize>(
    capture: &LatestFrameCache<C>,
    player: &AudioPlayer<P>,
) -> (frame: DisplayFrame<C, P>)
    ensures
        frame.spec_source() == source_for(player@.phase),
        match frame {
            DisplayFrame::Capturing(window) => window@ == capture@,
            DisplayFrame::Playing(window) => window@ == player@.window,
        },
{
    match display_source(player.phase()) {
        DisplaySource::Playing => DisplayFrame::Playing(player.latest_window()),
        DisplaySource::Capturing => DisplayFrame::Capturing(capture.latest_window()),
    }
}

} // verus!
