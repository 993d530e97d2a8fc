//! The audio player: the control side of playback.
//!
//! It decides, for each request to play a file, which stream has to go and
//! whether a new one may be built, and it holds what the display reads: the
//! path being played and the latest window that the output callback
//! mirrored. The caller reads files, decodes and owns the streams; the player
//! tells it what to release and hands it the callback to build with.

use vstd::prelude::*;
use crate::cache::{drain_latest, DrainReport};
use crate::channel::{
    fits_bounded, frame_channel, FrameReceiver, MAX_BACKLOG, MAX_ITEM_ALIGN, MAX_ITEM_BYTES,
};
use crate::decoder::{open_error, DecodeError, DecodedFrame, DecodedTrack, FrameFault, OpenProbe};
use crate::device::{
    negotiate_config, negotiated, DeviceDescriptor, Direction, StreamConfig,
    UnsupportedConfigError,
};
use crate::fault::{SessionKind, StreamFault};
use crate::playback::PlaybackCallback;
use crate::sample::{silence_seq, Sample, SampleWindow};
use crate::stream::{StreamBuildError, StreamId};

verus! {

/// Why a request to play did not lead to a stream.
#[derive(Clone, Copy, Debug, PartialEq, Eq, Structural)]
pub enum PlaybackError {
    /// The file did not open as a track.
    Decode(DecodeError),
    /// The output device has no usable configuration.
    Config(UnsupportedConfigError),
    /// No stream could be built.
    Build(StreamBuildError),
}

/// Where the player stands.
#[derive(Clone, Copy, Debug, PartialEq, Eq, Structural)]
pub enum PlayerPhase {
    /// Nothing plays and nothing is being prepared.
    Idle,
    /// A track is open, its callback has been handed out, and the stream is
    /// being built.
    Loading,
    /// The stream runs. It keeps running, writing silence, when the track
    /// has come to its end.
    Playing { stream: StreamId },
}

/// The player as a value.
pub struct PlayerView {
    pub phase: PlayerPhase,
    /// The path of the file being loaded or played.
    pub path: Option<Seq<char>>,
    /// The latest window read from the output callback.
    pub window: Seq<Sample>,
}

impl PlayerView {
    /// The streams that the player counts as its own: one while it plays,
    /// none otherwise.
    pub open spec fn owned(self) -> Set<StreamId> {
        match self.phase {
            PlayerPhase::Playing { stream } => set![stream],
            _ => Set::empty(),
        }
    }

    /// The stream that a request to play asks the caller to release first.
    pub open spec fn released_by_play(self) -> Option<StreamId> {
        match self.phase {
            PlayerPhase::Playing { stream } => Some(stream),
            _ => None,
        }
    }

    /// The player after a request to play `path` that met `error`, or met
    /// none.
    pub open spec fn after_play(self, path: Seq<char>, error: Option<PlaybackError>) -> PlayerView {
        match error {
            None => PlayerView {
                phase: PlayerPhase::Loading,
                path: Some(path),
                window: self.window,
            },
            Some(_) => PlayerView { phase: PlayerPhase::Idle, path: None, window: self.window },
        }
    }

    /// The player after the caller reported how building the stream went, and
    /// the error to hand on, if any.
    pub open spec fn after_built(self, built: Option<StreamId>) -> (PlayerView, Option<
        StreamBuildError,
    >) {
        match self.phase {
            PlayerPhase::Loading => match built {
                Some(stream) => (
                    PlayerView {
                        phase: PlayerPhase::Playing { stream },
                        path: self.path,
                        window: self.window,
                    },
                    None,
                ),
                None => (
                    PlayerView { phase: PlayerPhase::Idle, path: None, window: self.window },
                    Some(StreamBuildError::DeviceRejected),
                ),
            },
            _ => (self, Some(StreamBuildError::NotStarting)),
        }
    }

    /// The player after a fault was read: a fault of the playback stream
    /// takes the player to `Idle`, a fault of another stream changes nothing.
    pub open spec fn after_fault(self, fault: StreamFault) -> PlayerView {
        if fault.origin == SessionKind::Playback {
            PlayerView { phase: PlayerPhase::Idle, path: None, window: self.window }
        } else {
            self
        }
    }
}

/// Why a request to play leads to no stream, or `None` where it leads to one:
/// the track must have opened, and the device must be an output device with
/// a usable default configuration.
pub open spec fn play_error(
    opened: Result<DecodedTrack, DecodeError>,
    device: DeviceDescriptor,
) -> Option<PlaybackError> {
    match opened {
        Err(e) => Some(PlaybackError::Decode(e)),
        Ok(_) => if device.direction != Direction::Output {
            Some(PlaybackError::Build(StreamBuildError::WrongDirection))
        } else {
            match negotiated(device) {
                Err(e) => Some(PlaybackError::Config(e)),
                Ok(_) => None,
            }
        },
    }
}

/// What the caller is to do after a request to play, in this order: stop and
/// drop the stream named in `release`, then build and start a stream with the
/// callback in `start`, and report the outcome with
/// [`AudioPlayer::stream_built`].
#[derive(Debug)]
#[verifier::reject_recursive_types(N)]
pub struct PlayPlan<const N: usize> {
    pub release: Option<StreamId>,
    pub start: Result<PlaybackStart<N>, PlaybackError>,
}

/// What a new output stream is built with: the configuration negotiated with
/// the device, and the callback that the stream is to run.
#[derive(Debug)]
#[verifier::reject_recursive_types(N)]
pub struct PlaybackStart<const N: usize> {
    pub config: StreamConfig,
    pub callback: PlaybackCallback<N>,
}

impl<const N: usize> PlaybackStart<N> {
    /// Whether this is what playing `opened` on `device` starts with: the
    /// default configuration of the device, and a callback that plays the
    /// track on as many channels as that has, with a silent window.
    pub open spec fn plays(
        self,
        opened: Result<DecodedTrack, DecodeError>,
        device: DeviceDescriptor,
    ) -> bool {
        &&& opened matches Ok(track) && self.callback.track() == track@
        &&& negotiated(device) == Ok::<StreamConfig, UnsupportedConfigError>(self.config)
        &&& self.callback.spec_channels() == self.config.channels
        &&& self.callback.window() == silence_seq(N as nat)
    }
}

/// The control side of playback.
#[derive(Debug)]
#[verifier::reject_recursive_types(N)]
pub struct AudioPlayer<const N: usize> {
    path: Option<String>,
    rx: Option<FrameReceiver<N>>,
    buffer: SampleWindow<N>,
    phase: PlayerPhase,
    backlog: Option<usize>,
}

impl<const N: usize> View for AudioPlayer<N> {
    type V = PlayerView;

    closed spec fn view(&self) -> PlayerView {
        PlayerView {
            phase: self.phase,
            path: match self.path {
                Some(p) => Some(p@),
                None => None,
            },
            window: self.buffer@,
        }
    }
}

impl<const N: usize> AudioPlayer<N> {
    #[verifier::type_invariant]
    spec fn coherent(self) -> bool {
        &&& self.backlog matches Some(c) ==> fits_bounded::<SampleWindow<N>>(c)
        &&& self.phase is Idle <==> self.path is None
        &&& self.phase is Idle <==> self.rx is None
    }

    /// The capacity of the frame channels that the player opens; `None` for
    /// unbounded ones.
    pub closed spec fn backlog(&self) -> Option<usize> {
        self.backlog
    }

    /// An idle player with a silent window, which will open a frame channel
    /// of capacity `backlog` for each track, unbounded for `None`. `None`
    /// where a channel of that capacity cannot be opened.
    pub fn new(backlog: Option<usize>) -> (made: Option<AudioPlayer<N>>)
        ensures
            made is Some <==> (backlog matches Some(c) ==> fits_bounded::<SampleWindow<N>>(c)),
            made matches Some(player) ==> {
                &&& player@ == (PlayerView {
                    phase: PlayerPhase::Idle,
                    path: None,
                    window: silence_seq(N as nat),
                })
                &&& player.backlog() == backlog
            },
    {
        match backlog {
            Some(c) => {
                if c == 0 || c > MAX_BACKLOG {
                    return None;
                }
                if core::mem::size_of::<SampleWindow<N>>() > MAX_ITEM_BYTES {
                    return None;
                }
                if core::mem::align_of::<SampleWindow<N>>() > MAX_ITEM_ALIGN {
                    return None;
                }
            },
            None => {},
        }
        Some(
            AudioPlayer {
                path: None,
                rx: None,
                buffer: SampleWindow::silent(),
                phase: PlayerPhase::Idle,
                backlog,
            },
        )
    }

    /// Where the player stands.
    pub fn phase(&self) -> (phase: PlayerPhase)
        ensures
            phase == self@.phase,
    {
        self.phase
    }

    /// The path of the file being loaded or played; `None` while idle.
    pub fn current_path(&self) -> (path: Option<&String>)
        ensures
            match path {
                Some(p) => self@.path == Some(p@),
                None => self@.path is None,
            },
            path is None <==> self@.phase is Idle,
    {
        proof {
            use_type_invariant(self);
        }
        self.path.as_ref()
    }

    /// The latest window read from the output callback.
    pub fn latest_window(&self) -> (window: SampleWindow<N>)
        ensures
            window@ == self@.window,
    {
        self.buffer
    }

    /// Takes a request to play the file at `path`, with the outcome of
    /// opening that file as a track. Whatever stream played before is named
    /// for release. Where the track opened and `output_device` is an output
    /// device with a usable configuration, the player opens a fresh frame
    /// channel, goes to `Loading`, and the plan carries the configuration of
    /// the device and the callback that plays the track on as many channels
    /// as that has. Otherwise the player goes to `Idle` and the plan carries
    /// the reason.
    pub fn play(
        &mut self,
        path: String,
        opened: Result<DecodedTrack, DecodeError>,
        output_device: &DeviceDescriptor,
    ) -> (plan: PlayPlan<N>)
        ensures
            plan.release == old(self)@.released_by_play(),
            final(self)@ == old(self)@.after_play(path@, play_error(opened, *output_device)),
            final(self).backlog() == old(self).backlog(),
            match plan.start {
                Ok(start) => play_error(opened, *output_device) is None && start.plays(
                    opened,
                    *output_device,
                ),
                Err(e) => play_error(opened, *output_device) == Some(e),
            },
    {
        proof {
            use_type_invariant(&*self);
        }
        let release = match self.phase {
            PlayerPhase::Playing { stream } => Some(stream),
            _ => None,
        };
        let prepared = Self::prepare(opened, output_device, self.backlog);
        match prepared {
            Ok((start, rx)) => {
                *self = AudioPlayer {
                    path: Some(path),
                    rx: Some(rx),
                    buffer: self.buffer,
                    phase: PlayerPhase::Loading,
                    backlog: self.backlog,
                };
                PlayPlan { release, start: Ok(start) }
            },
            Err(e) => {
                *self = AudioPlayer {
                    path: None,
                    rx: None,
                    buffer: self.buffer,
                    phase: PlayerPhase::Idle,
                    backlog: self.backlog,
                };
                PlayPlan { release, start: Err(e) }
            },
        }
    }

    /// What to start one track with, and the receiving end of its frame
    /// channel; or why there is nothing to start.
    fn prepare(
        opened: Result<DecodedTrack, DecodeError>,
        output_device: &DeviceDescriptor,
        backlog: Option<usize>,
    ) -> (prepared: Result<(PlaybackStart<N>, FrameReceiver<N>), PlaybackError>)
        requires
            backlog matches Some(c) ==> fits_bounded::<SampleWindow<N>>(c),
        ensures
            match prepared {
                Ok(pair) => play_error(opened, *output_device) is None && pair.0.plays(
                    opened,
                    *output_device,
                ),
                Err(e) => play_error(opened, *output_device) == Some(e),
            },
    {
        let track = match opened {
            Ok(track) => track,
            Err(e) => {
                return Err(PlaybackError::Decode(e));
            },
        };
        match output_device.direction {
            Direction::Output => {},
            Direction::Input => {
                return Err(PlaybackError::Build(StreamBuildError::WrongDirection));
            },
        }
        let config = match negotiate_config(output_device) {
            Ok(config) => config,
            Err(e) => {
                return Err(PlaybackError::Config(e));
            },
        };
        let ends = frame_channel::<N>(backlog);
        let (tx, rx) = ends.unwrap();
        let callback = PlaybackCallback::new(track, config.channels, tx);
        Ok((PlaybackStart { config, callback: callback.unwrap() }, rx))
    }

    /// Takes the outcome of building the stream: its handle, or `None` where
    /// the device rejected the configuration. A player that awaits a stream
    /// then plays, or is idle again; any other player stays as it is and
    /// reports that it awaited none.
    pub fn stream_built(&mut self, built: Option<StreamId>) -> (outcome: Result<
        (),
        StreamBuildError,
    >)
        ensures
            final(self)@ == old(self)@.after_built(built).0,
            final(self).backlog() == old(self).backlog(),
            match outcome {
                Ok(_) => old(self)@.after_built(built).1 is None,
                Err(e) => old(self)@.after_built(built).1 == Some(e),
            },
    {
        proof {
            use_type_invariant(&*self);
        }
        match self.phase {
            PlayerPhase::Loading => match built {
                Some(stream) => {
                    self.phase = PlayerPhase::Playing { stream };
                    Ok(())
                },
                None => {
                    *self = AudioPlayer {
                        path: None,
                        rx: None,
                        buffer: self.buffer,
                        phase: PlayerPhase::Idle,
                        backlog: self.backlog,
                    };
                    Err(StreamBuildError::DeviceRejected)
                },
            },
            _ => Err(StreamBuildError::NotStarting),
        }
    }

    /// Reacts to a fault read from a fault channel: a fault of the playback
    /// stream takes the player to `Idle`, and the result is the stream to
    /// stop and drop, where one runs; a fault of another stream leaves the
    /// player alone.
    pub fn on_fault(&mut self, fault: StreamFault) -> (release: Option<StreamId>)
        ensures
            final(self)@ == old(self)@.after_fault(fault),
            final(self).backlog() == old(self).backlog(),
            release == if fault.origin == SessionKind::Playback {
                old(self)@.released_by_play()
            } else {
                None
            },
    {
        proof {
            use_type_invariant(&*self);
        }
        match fault.origin {
            SessionKind::Capture => None,
            SessionKind::Playback => {
                let release = match self.phase {
                    PlayerPhase::Playing { stream } => Some(stream),
                    _ => None,
                };
                *self = AudioPlayer {
                    path: None,
                    rx: None,
                    buffer: self.buffer,
                    phase: PlayerPhase::Idle,
                    backlog: self.backlog,
                };
                release
            },
        }
    }

    /// Drains the frame channel of the current track into the window, without
    /// blocking, as [`drain_latest`] does. With no track there is nothing to
    /// drain. The phase and the path are not touched.
    pub fn read_rx(&mut self) -> (report: DrainReport)
        ensures
            final(self)@.phase == old(self)@.phase,
            final(self)@.path == old(self)@.path,
            final(self).backlog() == old(self).backlog(),
            report.taken <= report.waiting,
            report.taken == 0 ==> final(self)@ == old(self)@,
            old(self)@.phase is Idle ==> report.waiting == 0,
    {
        proof {
            use_type_invariant(&*self);
        }
        let mut latest = self.buffer;
        let report = match &self.rx {
            Some(rx) => drain_latest(rx, &mut latest),
            None => DrainReport { waiting: 0, taken: 0 },
        };
        self.buffer = latest;
        report
    }
}

/// The streams that are live once the caller has released `release`.
pub open spec fn live_after_release(live: Set<StreamId>, release: Option<StreamId>) -> Set<
    StreamId,
> {
    match release {
        Some(stream) => live.remove(stream),
        None => live,
    }
}

/// A player owns at most one stream.
pub proof fn law_player_owns_at_most_one_stream(player: PlayerView)
    ensures
        player.owned().finite(),
        player.owned().len() <= 1,
{
    match player.phase {
        PlayerPhase::Playing { stream } => {
            assert(player.owned() =~= Set::empty().insert(stream));
        },
        _ => {},
    }
}

/// Playing twice in a row leaves exactly one live output stream. Where the
/// caller releases what each plan names before it builds, no stream is live
/// while either track loads, the stream of the first play is gone before the
/// stream of the second is built, and in the end the second is the only one.
pub proof fn law_play_twice_leaves_one_stream(
    start: PlayerView,
    path: Seq<char>,
    first: StreamId,
    second: StreamId,
)
    ensures
        ({
            let live0 = start.owned();
            let loading1 = start.after_play(path, None);
            let live1 = live_after_release(live0, start.released_by_play());
            let playing1 = loading1.after_built(Some(first)).0;
            let live2 = live1.insert(first);
            let loading2 = playing1.after_play(path, None);
            let live3 = live_after_release(live2, playing1.released_by_play());
            let playing2 = loading2.after_built(Some(second)).0;
            let live4 = live3.insert(second);
            &&& live1 == Set::<StreamId>::empty()
            &&& live2 == playing1.owned()
            &&& live3 == Set::<StreamId>::empty()
            &&& live4 == set![second]
            &&& live4 == playing2.owned()
            &&& playing2.phase == (PlayerPhase::Playing { stream: second })
            &&& playing2.path == Some(path)
        }),
{
    let live0 = start.owned();
    let live1 = live_after_release(live0, start.released_by_play());
    assert(live1 =~= Set::<StreamId>::empty());
    let live2 = live1.insert(first);
    let playing1 = start.after_play(path, None).after_built(Some(first)).0;
    assert(live2 =~= playing1.owned());
    let live3 = live_after_release(live2, playing1.released_by_play());
    assert(live3 =~= Set::<StreamId>::empty());
    assert(live3.insert(second) =~= set![second]);
}

/// A second request to play that arrives while the first track still loads
/// finds no stream to release and leaves none live; the one stream built
/// after it is then the only one.
pub proof fn law_play_while_loading_holds_no_stream(
    start: PlayerView,
    path: Seq<char>,
    stream: StreamId,
)
    ensures
        ({
            let loading1 = start.after_play(path, None);
            let loading2 = loading1.after_play(path, None);
            &&& loading1.owned() == Set::<StreamId>::empty()
            &&& loading1.released_by_play() is None
            &&& loading2.owned() == Set::<StreamId>::empty()
            &&& loading2.after_built(Some(stream)).0.owned() == set![stream]
        }),
{
}

/// A file that is empty, that ends before its first frame is complete, or
/// whose first frame holds no samples opens as `CorruptStream`, and a request
/// to play it leaves the player idle, whatever it did before.
pub proof fn law_corrupt_file_leaves_player_idle(
    player: PlayerView,
    path: Seq<char>,
    probe: OpenProbe,
    opened: Result<DecodedTrack, DecodeError>,
    device: DeviceDescriptor,
)
    requires
        probe matches OpenProbe::Stream { byte_len, first } && (byte_len == 0 || first == Err::<
            DecodedFrame,
            FrameFault,
        >(FrameFault::Truncated) || (first matches Ok(frame) && frame.pairs@.len() == 0)),
        opened matches Err(e) && open_error(probe) == Some(e),
    ensures
        opened == Err::<DecodedTrack, DecodeError>(DecodeError::CorruptStream),
        play_error(opened, device) == Some(PlaybackError::Decode(DecodeError::CorruptStream)),
        player.after_play(path, play_error(opened, device)).phase == PlayerPhase::Idle,
        player.after_play(path, play_error(opened, device)).path is None,
{
}

} // verus!
