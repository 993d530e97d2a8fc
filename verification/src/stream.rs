//! Stream handles and the errors of building a stream.
//!
//! A stream is an open connection to a device, owned by the caller. A session
//! knows it by the handle that the caller gave it, and tells the caller which
//! handle to release.

use vstd::prelude::*;

verus! {

/// The caller's handle of one built stream.
#[derive(Clone, Copy, Debug, PartialEq, Eq, Structural)]
pub struct StreamId {
    pub raw: u64,
}

/// Why no stream was built for a session.
#[derive(Clone, Copy, Debug, PartialEq, Eq, Structural)]
pub enum StreamBuildError {
    /// The session has been started before; a session starts once.
    NotUnstarted,
    /// The device does not carry audio in the direction of the session.
    WrongDirection,
    /// The configuration has no channel or no sample rate.
    UnusableConfig,
    /// The device rejected the configuration when the stream was built.
    DeviceRejected,
    /// No stream is awaited: the session did not ask for one.
    NotStarting,
}

} // verus!
