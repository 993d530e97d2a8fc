//! The frame channel: the non-blocking hand-off of sample windows from an
//! audio callback to the display thread.
//!
//! The two ends live on different threads, so nothing that one end sees can be
//! told from the values it holds: whether a send finds room and what a receive
//! finds depend on what the other thread has done. The functions here
//! therefore state nothing of what they return. What the consumer makes of
//! the windows it receives is stated in [`crate::cache`], and what an
//! order-preserving channel implies for it in [`crate::delivery`].

use vstd::prelude::*;
use vstd::layout::{align_of, size_of};
use crate::sample::SampleWindow;

verus! {

/// Declares `crossbeam::channel::Sender` as an opaque type: a value of it is
/// carried around and nothing is known of what it holds.
#[verifier::external_type_specification]
#[verifier::external_body]
#[verifier::reject_recursive_types(T)]
pub struct ExSender<T>(crossbeam::channel::Sender<T>);

/// Declares `crossbeam::channel::Receiver` as an opaque type: a value of it
/// is carried around and nothing is known of what it holds.
#[verifier::external_type_specification]
#[verifier::external_body]
#[verifier::reject_recursive_types(T)]
pub struct ExReceiver<T>(crossbeam::channel::Receiver<T>);

/// The most slots a bounded channel may be opened with.
pub const MAX_BACKLOG: usize = 4096;

/// The largest item, in bytes, that a bounded channel may carry.
pub const MAX_ITEM_BYTES: usize = 262144;

/// The strictest alignment of an item that a bounded channel may carry.
pub const MAX_ITEM_ALIGN: usize = 4096;

/// Whether a bounded channel of `capacity` slots for items of type `T` can be
/// opened: it has a slot, and its slot buffer stays far below the largest
/// allocation there is, on 32-bit targets too.
pub open spec fn fits_bounded<T>(capacity: usize) -> bool {
    &&& 0 < capacity <= MAX_BACKLOG
    &&& size_of::<T>() <= MAX_ITEM_BYTES
    &&& align_of::<T>() <= MAX_ITEM_ALIGN
}

/// Calls `crossbeam::channel::unbounded`. The two ends are opaque, so nothing
/// is stated of them.
#[verifier::external_body]
pub(crate) fn open_unbounded<T>() -> (ends: (
    crossbeam::channel::Sender<T>,
    crossbeam::channel::Receiver<T>,
)) {
    crossbeam::channel::unbounded()
}

/// Calls `crossbeam::channel::bounded`, which panics when the capacity is too
/// large for its slot buffer; `requires` keeps the buffer under 2^31 bytes.
/// A capacity of zero would give a rendezvous channel and is left out too.
/// The two ends are opaque, so nothing is stated of them.
#[verifier::external_body]
pub(crate) fn open_bounded<T>(capacity: usize) -> (ends: (
    crossbeam::channel::Sender<T>,
    crossbeam::channel::Receiver<T>,
))
    requires
        fits_bounded::<T>(capacity),
{
    crossbeam::channel::bounded(capacity)
}

/// Calls `Sender::try_send` and reports whether the item was taken. It is not
/// taken when the channel is full or has no receiver left; which of these
/// holds depends on the other thread, so nothing is stated of the result.
#[verifier::external_body]
pub(crate) fn offer<T>(tx: &crossbeam::channel::Sender<T>, item: T) -> (accepted: bool) {
    tx.try_send(item).is_ok()
}

/// Calls `Receiver::try_recv` and hands out the item, if one was there. What
/// is there depends on the other thread, so nothing is stated of the result.
#[verifier::external_body]
pub(crate) fn poll<T>(rx: &crossbeam::channel::Receiver<T>) -> (item: Option<T>) {
    rx.try_recv().ok()
}

/// Calls `Receiver::len`: the number of items in the channel at some moment
/// during the call. The other thread may have changed it since, so nothing is
/// stated of the result.
#[verifier::external_body]
pub(crate) fn backlog<T>(rx: &crossbeam::channel::Receiver<T>) -> (queued: usize) {
    rx.len()
}

/// The producing end of a frame channel, owned by one audio callback.
#[derive(Debug)]
#[verifier::reject_recursive_types(N)]
pub struct FrameSender<const N: usize> {
    tx: crossbeam::channel::Sender<SampleWindow<N>>,
    limit: Option<usize>,
}

/// The consuming end of a frame channel, owned by the display thread.
#[derive(Debug)]
#[verifier::reject_recursive_types(N)]
pub struct FrameReceiver<const N: usize> {
    rx: crossbeam::channel::Receiver<SampleWindow<N>>,
    limit: Option<usize>,
}

impl<const N: usize> FrameSender<N> {
    /// The capacity the channel was opened with; `None` when it is unbounded.
    pub closed spec fn spec_capacity(&self) -> Option<usize> {
        self.limit
    }

    #[verifier::when_used_as_spec(spec_capacity)]
    pub fn capacity(&self) -> (limit: Option<usize>)
        ensures
            limit == self.spec_capacity(),
    {
        self.limit
    }

    /// Offers a window to the channel without blocking. Returns whether the
    /// channel took it; a window that is not taken is dropped.
    pub fn send(&self, window: SampleWindow<N>) -> (accepted: bool) {
        offer(&self.tx, window)
    }
}

impl<const N: usize> FrameReceiver<N> {
    /// The capacity the channel was opened with; `None` when it is unbounded.
    pub closed spec fn spec_capacity(&self) -> Option<usize> {
        self.limit
    }

    #[verifier::when_used_as_spec(spec_capacity)]
    pub fn capacity(&self) -> (limit: Option<usize>)
        ensures
            limit == self.spec_capacity(),
    {
        self.limit
    }

    /// Takes the oldest window that has not been delivered yet, without
    /// blocking; `None` when there is none.
    pub fn try_recv(&self) -> (window: Option<SampleWindow<N>>) {
        poll(&self.rx)
    }

    /// The number of windows that were waiting at some moment during the call.
    pub fn pending(&self) -> (queued: usize) {
        backlog(&self.rx)
    }
}

/// Opens a frame channel for windows of `N` samples: unbounded for `None`,
/// else with that many slots. A bounded channel is refused, with `None`, when
/// it would have no slot or be larger than [`fits_bounded`] allows.
pub fn frame_channel<const N: usize>(capacity: Option<usize>) -> (ends: Option<
    (FrameSender<N>, FrameReceiver<N>),
>)
    ensures
        ends is Some <==> (capacity matches Some(c) ==> fits_bounded::<SampleWindow<N>>(c)),
        ends matches Some(pair) ==> pair.0.capacity() == capacity && pair.1.capacity()
            == capacity,
{
    match capacity {
        None => {
            let (tx, rx) = open_unbounded::<SampleWindow<N>>();
            Some((FrameSender { tx, limit: None }, FrameReceiver { rx, limit: None }))
        },
        Some(c) => {
            if c == 0 || c > MAX_BACKLOG {
                return None;
            }
            if core::mem::size_of::<SampleWindow<N>>() > MAX_ITEM_BYTES {
                return None;
            }
            if core::mem::align_of::<SampleWindow<N>>() > MAX_ITEM_ALIGN {
                return None;
            }
            let (tx, rx) = open_bounded::<SampleWindow<N>>(c);
            Some((FrameSender { tx, limit: Some(c) }, FrameReceiver { rx, limit: Some(c) }))
        },
    }
}

} // verus!
