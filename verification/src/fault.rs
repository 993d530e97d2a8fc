//! Stream faults: what the driver's error callback reports, and the bounded
//! channel that carries the reports to the display thread.
//!
//! A fault never unwinds or blocks in the audio thread. It is offered to the
//! channel once and dropped when the channel is full.

use vstd::prelude::*;
use crate::channel::{
    fits_bounded, offer, open_bounded, poll, MAX_BACKLOG, MAX_ITEM_ALIGN, MAX_ITEM_BYTES,
};

verus! {

/// Which kind of session a stream belongs to.
#[derive(Clone, Copy, Debug, PartialEq, Eq, Structural)]
pub enum SessionKind {
    Capture,
    Playback,
}

/// What went wrong with a running stream.
#[derive(Clone, Copy, Debug, PartialEq, Eq, Structural)]
pub enum FaultKind {
    /// The device is gone.
    DeviceUnavailable,
    /// The audio backend reported an error of its own.
    Backend,
}

/// One fault of one stream.
#[derive(Clone, Copy, Debug, PartialEq, Eq, Structural)]
pub struct StreamFault {
    pub origin: SessionKind,
    pub kind: FaultKind,
}

/// The reporting end of a fault channel, owned by the error callback of one
/// stream.
#[derive(Debug)]
pub struct FaultReporter {
    tx: crossbeam::channel::Sender<StreamFault>,
    origin: SessionKind,
}

/// The reading end of a fault channel, owned by the display thread.
#[derive(Debug)]
pub struct FaultInbox {
    rx: crossbeam::channel::Receiver<StreamFault>,
    origin: SessionKind,
}

impl FaultReporter {
    /// The kind of session whose faults this end reports.
    pub closed spec fn spec_origin(&self) -> SessionKind {
        self.origin
    }

    #[verifier::when_used_as_spec(spec_origin)]
    pub fn origin(&self) -> (origin: SessionKind)
        ensures
            origin == self.spec_origin(),
    {
        self.origin
    }

    /// The fault that a report of `kind` through this end carries.
    pub open spec fn fault_of(&self, kind: FaultKind) -> StreamFault {
        StreamFault { origin: self.spec_origin(), kind }
    }

    /// The fault that a report of `kind` through this end carries: it names
    /// the session of this end as its origin.
    pub fn fault(&self, kind: FaultKind) -> (fault: StreamFault)
        ensures
            fault == self.fault_of(kind),
    {
        StreamFault { origin: self.origin, kind }
    }

    /// Offers the fault of `kind` to the channel without blocking. Returns
    /// whether the channel took it; a fault that is not taken is dropped.
    pub fn report(&self, kind: FaultKind) -> (accepted: bool) {
        offer(&self.tx, self.fault(kind))
    }
}

impl FaultInbox {
    /// The kind of session whose faults arrive here.
    pub closed spec fn spec_origin(&self) -> SessionKind {
        self.origin
    }

    #[verifier::when_used_as_spec(spec_origin)]
    pub fn origin(&self) -> (origin: SessionKind)
        ensures
            origin == self.spec_origin(),
    {
        self.origin
    }

    /// Takes the oldest fault that has not been read yet, without blocking;
    /// `None` when there is none.
    pub fn try_recv(&self) -> (fault: Option<StreamFault>) {
        poll(&self.rx)
    }
}

/// Opens the fault channel of one session, with `capacity` slots. It is
/// refused, with `None`, when it would have no slot or be larger than
/// [`fits_bounded`] allows.
pub fn fault_channel(origin: SessionKind, capacity: usize) -> (ends: Option<
    (FaultReporter, FaultInbox),
>)
    ensures
        ends is Some <==> fits_bounded::<StreamFault>(capacity),
        ends matches Some(pair) ==> pair.0.origin() == origin && pair.1.origin() == origin,
{
    if capacity == 0 || capacity > MAX_BACKLOG {
        return None;
    }
    if core::mem::size_of::<StreamFault>() > MAX_ITEM_BYTES {
        return None;
    }
    if core::mem::align_of::<StreamFault>() > MAX_ITEM_ALIGN {
        return None;
    }
    let (tx, rx) = open_bounded::<StreamFault>(capacity);
    Some((FaultReporter { tx, origin }, FaultInbox { rx, origin }))
}

} // verus!
