//! The capture session: the state machine that owns the input stream, and the
//! callback that the stream runs.

use vstd::prelude::*;
use crate::channel::FrameSender;
use crate::device::{DeviceDescriptor, Direction, StreamConfig};
use crate::fault::{SessionKind, StreamFault};
use crate::sample::{overlay, silence_seq, Sample, SampleWindow};
use crate::stream::{StreamBuildError, StreamId};

verus! {

/// Where a capture session stands. A session runs once: from `Stopped` there
/// is no way back.
#[derive(Clone, Copy, Debug, PartialEq, Eq, Structural)]
pub enum CaptureState {
    /// Nothing has been asked of the session yet.
    Unstarted,
    /// The callback has been handed out and the stream is being built.
    Starting,
    /// The stream runs.
    Running { stream: StreamId },
    /// The session is over.
    Stopped,
}

impl CaptureState {
    /// The stream that the session owns in this state.
    pub open spec fn stream(self) -> Option<StreamId> {
        match self {
            CaptureState::Running { stream } => Some(stream),
            _ => None,
        }
    }

    /// The state after the caller reported how building the stream went, and
    /// the error to hand on, if any.
    pub open spec fn after_built(self, built: Option<StreamId>) -> (CaptureState, Option<
        StreamBuildError,
    >) {
        match self {
            CaptureState::Starting => match built {
                Some(stream) => (CaptureState::Running { stream }, None),
                None => (CaptureState::Stopped, Some(StreamBuildError::DeviceRejected)),
            },
            _ => (self, Some(StreamBuildError::NotStarting)),
        }
    }

    /// The state after a fault was read: a fault of the capture stream ends
    /// the session, a fault of another stream changes nothing.
    pub open spec fn after_fault(self, fault: StreamFault) -> CaptureState {
        if fault.origin == SessionKind::Capture {
            CaptureState::Stopped
        } else {
            self
        }
    }
}

/// Why a capture session in `state` cannot start on `device` with `config`,
/// or `None` where it can.
pub open spec fn start_error(
    state: CaptureState,
    device: DeviceDescriptor,
    config: StreamConfig,
) -> Option<StreamBuildError> {
    if state != CaptureState::Unstarted {
        Some(StreamBuildError::NotUnstarted)
    } else if device.direction != Direction::Input {
        Some(StreamBuildError::WrongDirection)
    } else if !config.usable() {
        Some(StreamBuildError::UnusableConfig)
    } else {
        None
    }
}

/// The state that the input stream's callback owns.
#[derive(Debug)]
#[verifier::reject_recursive_types(N)]
pub struct CaptureCallback<const N: usize> {
    window: SampleWindow<N>,
    producer: FrameSender<N>,
}

impl<const N: usize> CaptureCallback<N> {
    /// The window that mirrors what was last read.
    pub closed spec fn window(&self) -> Seq<Sample> {
        self.window@
    }

    /// The end of the frame channel that the callback sends into.
    pub closed spec fn producer(&self) -> FrameSender<N> {
        self.producer
    }

    /// The window that mirrors what was last read.
    pub fn latest_window(&self) -> (window: SampleWindow<N>)
        ensures
            window@ == self.window(),
    {
        self.window
    }

    /// Takes one input buffer: copies its first samples over the front of the
    /// window, as many as both hold, and offers the window to the frame
    /// channel once, without blocking. Returns whether the channel took it.
    pub fn on_input(&mut self, input: &[Sample]) -> (accepted: bool)
        ensures
            final(self).window() == overlay(old(self).window(), input@),
            final(self).producer() == old(self).producer(),
    {
        self.window.fill_from(input);
        self.producer.send(self.window)
    }
}

/// The control side of capture: it decides whether a stream may be built and
/// remembers the one that runs.
#[derive(Debug)]
pub struct CaptureSession {
    state: CaptureState,
}

impl View for CaptureSession {
    type V = CaptureState;

    closed spec fn view(&self) -> CaptureState {
        self.state
    }
}

impl CaptureSession {
    /// A session that has not been started.
    pub fn new() -> (session: CaptureSession)
        ensures
            session@ == CaptureState::Unstarted,
    {
        CaptureSession { state: CaptureState::Unstarted }
    }

    /// Where the session stands.
    pub fn state(&self) -> (state: CaptureState)
        ensures
            state == self@,
    {
        self.state
    }

    /// Starts the session on an input device. Where that is in order, the
    /// session goes to `Starting` and the result is the callback to build the
    /// input stream with: it holds a silent window and sends into `producer`.
    /// Otherwise the session stays as it was.
    pub fn start<const N: usize>(
        &mut self,
        device: &DeviceDescriptor,
        config: StreamConfig,
        producer: FrameSender<N>,
    ) -> (started: Result<CaptureCallback<N>, StreamBuildError>)
        ensures
            match started {
                Ok(callback) => {
                    &&& start_error(old(self)@, *device, config) is None
                    &&& final(self)@ == CaptureState::Starting
                    &&& callback.window() == silence_seq(N as nat)
                    &&& callback.producer() == producer
                },
                Err(e) => {
                    &&& start_error(old(self)@, *device, config) == Some(e)
                    &&& final(self)@ == old(self)@
                },
            },
    {
        match self.state {
            CaptureState::Unstarted => {},
            _ => {
                return Err(StreamBuildError::NotUnstarted);
            },
        }
        match device.direction {
            Direction::Input => {},
            Direction::Output => {
                return Err(StreamBuildError::WrongDirection);
            },
        }
        if config.channels == 0 || config.sample_rate == 0 {
            return Err(StreamBuildError::UnusableConfig);
        }
        self.state = CaptureState::Starting;
        Ok(CaptureCallback { window: SampleWindow::silent(), producer })
    }

    /// Takes the outcome of building the stream: its handle, or `None` where
    /// the device rejected the configuration. A session that awaits a stream
    /// then runs, or is over; any other session stays as it is and reports
    /// that it awaited none.
    pub fn stream_built(&mut self, built: Option<StreamId>) -> (outcome: Result<
        (),
        StreamBuildError,
    >)
        ensures
            final(self)@ == old(self)@.after_built(built).0,
            match outcome {
                Ok(_) => old(self)@.after_built(built).1 is None,
                Err(e) => old(self)@.after_built(built).1 == Some(e),
            },
    {
        match self.state {
            CaptureState::Starting => match built {
                Some(stream) => {
                    self.state = CaptureState::Running { stream };
                    Ok(())
                },
                None => {
                    self.state = CaptureState::Stopped;
                    Err(StreamBuildError::DeviceRejected)
                },
            },
            _ => Err(StreamBuildError::NotStarting),
        }
    }

    /// Ends the session. The result is the stream to stop and drop, where one
    /// runs.
    pub fn stop(&mut self) -> (release: Option<StreamId>)
        ensures
            final(self)@ == CaptureState::Stopped,
            release == old(self)@.stream(),
    {
        let release = match self.state {
            CaptureState::Running { stream } => Some(stream),
            _ => None,
        };
        self.state = CaptureState::Stopped;
        release
    }

    /// Reacts to a fault read from a fault channel: a fault of the capture
    /// stream ends this session, and the result is the stream to stop and
    /// drop; a fault of another stream leaves the session alone.
    pub fn on_fault(&mut self, fault: StreamFault) -> (release: Option<StreamId>)
        ensures
            final(self)@ == old(self)@.after_fault(fault),
            release == if fault.origin == SessionKind::Capture {
                old(self)@.stream()
            } else {
                None
            },
    {
        match fault.origin {
            SessionKind::Capture => self.stop(),
            SessionKind::Playback => None,
        }
    }
}

} // verus!
