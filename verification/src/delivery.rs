//! What order-preserving delivery implies for a consumer that keeps only the
//! latest item.
//!
//! The frame channel hands windows from one thread to another, and nothing
//! here proves how it does so. This module states the consumer's rule, that
//! of everything received the last is kept, and proves what follows from it
//! for any channel that delivers what it accepted in the order of sending:
//! the window kept after a drain is the most recent one that was accepted,
//! and a window once superseded never comes back.

use vstd::prelude::*;

verus! {

/// What a consumer keeps after it has received `received`, oldest first,
/// when it held `held` before: the last item received, if there is one.
pub open spec fn retained<T>(held: T, received: Seq<T>) -> T {
    if received.len() == 0 {
        held
    } else {
        received.last()
    }
}

/// An order-preserving channel as a value: what is queued, oldest first, and
/// the capacity, where it is bounded.
pub struct Fifo<T> {
    pub queued: Seq<T>,
    pub capacity: Option<nat>,
}

impl<T> Fifo<T> {
    /// An empty channel.
    pub open spec fn empty(capacity: Option<nat>) -> Fifo<T> {
        Fifo { queued: Seq::empty(), capacity }
    }

    /// Whether the queue respects the capacity.
    pub open spec fn within_capacity(self) -> bool {
        self.capacity matches Some(c) ==> self.queued.len() <= c
    }

    /// Whether a send finds room.
    pub open spec fn has_room(self) -> bool {
        self.capacity matches Some(c) ==> self.queued.len() < c
    }

    /// The channel after one non-blocking send: the item joins the queue if
    /// there is room and is dropped if not.
    pub open spec fn after_send(self, item: T) -> Fifo<T> {
        if self.has_room() {
            Fifo { queued: self.queued.push(item), capacity: self.capacity }
        } else {
            self
        }
    }

    /// The channel after `items` were sent, in order, with no receive between.
    pub open spec fn after_sends(self, items: Seq<T>) -> Fifo<T>
        decreases items.len(),
    {
        if items.len() == 0 {
            self
        } else {
            self.after_sends(items.drop_last()).after_send(items.last())
        }
    }

    /// The channel after a drain: everything queued was received.
    pub open spec fn after_drain(self) -> Fifo<T> {
        Fifo { queued: Seq::empty(), capacity: self.capacity }
    }
}

/// Whether the stamps in `stamps` strictly increase.
pub open spec fn strictly_increasing(stamps: Seq<int>) -> bool {
    forall|i: int, j: int| 0 <= i < j < stamps.len() ==> stamps[i] < stamps[j]
}

/// Keeping the latest of two batches in turn keeps the same item as keeping
/// the latest of both together: how a consumer splits its receives over its
/// ticks does not matter.
pub proof fn law_retained_composes<T>(held: T, first: Seq<T>, second: Seq<T>)
    ensures
        retained(retained(held, first), second) == retained(held, first + second),
{
    if second.len() == 0 {
        assert(first + second =~= first);
    } else {
        assert((first + second).last() == second.last());
    }
}

/// A send never takes an item out of the queue, never changes the order of
/// what is queued, and never lets a bounded queue grow beyond its capacity.
pub proof fn law_sends_extend_the_queue<T>(channel: Fifo<T>, items: Seq<T>)
    requires
        channel.within_capacity(),
    ensures
        channel.after_sends(items).capacity == channel.capacity,
        channel.after_sends(items).within_capacity(),
        channel.queued.is_prefix_of(channel.after_sends(items).queued),
        channel.after_sends(items).queued.len() <= channel.queued.len() + items.len(),
    decreases items.len(),
{
    if items.len() > 0 {
        law_sends_extend_the_queue(channel, items.drop_last());
    }
}

/// In an unbounded channel every item sent is queued, in the order of
/// sending.
pub proof fn law_unbounded_queues_every_send<T>(channel: Fifo<T>, items: Seq<T>)
    requires
        channel.capacity is None,
    ensures
        channel.after_sends(items).queued == channel.queued + items,
    decreases items.len(),
{
    if items.len() == 0 {
        assert(channel.queued + items =~= channel.queued);
    } else {
        law_unbounded_queues_every_send(channel, items.drop_last());
        law_sends_extend_the_queue(channel, items.drop_last());
        assert(channel.after_sends(items.drop_last()).has_room());
        assert((channel.queued + items.drop_last()).push(items.last()) =~= channel.queued + items);
    }
}

/// After any sends into an unbounded channel, a drain leaves the consumer
/// with the window that was sent last, whatever it held and whatever was
/// queued before.
pub proof fn law_drain_keeps_most_recent_send<T>(channel: Fifo<T>, held: T, items: Seq<T>)
    requires
        channel.capacity is None,
        items.len() > 0,
    ensures
        retained(held, channel.after_sends(items).queued) == items.last(),
{
    law_unbounded_queues_every_send(channel, items);
}

/// After any sends into a bounded channel with room for at least one item
/// and nothing queued, a drain leaves the consumer with one of the items
/// sent, and with the first of them where there was room for one only.
pub proof fn law_bounded_drain_keeps_a_sent_item<T>(capacity: nat, held: T, items: Seq<T>)
    requires
        capacity >= 1,
        items.len() > 0,
    ensures
        Fifo::<T>::empty(Some(capacity)).after_sends(items).queued.len() >= 1,
        items.contains(retained(held, Fifo::<T>::empty(Some(capacity)).after_sends(items).queued)),
        capacity == 1 ==> retained(held, Fifo::<T>::empty(Some(capacity)).after_sends(items).queued)
            == items[0],
    decreases items.len(),
{
    let start = Fifo::<T>::empty(Some(capacity));
    let rest = items.drop_last();
    if rest.len() == 0 {
        assert(start.after_sends(rest) == start);
        assert(start.has_room());
        assert(start.after_sends(items).queued =~= seq![items.last()]);
        assert(items[0] == items.last());
    } else {
        law_bounded_drain_keeps_a_sent_item(capacity, held, rest);
        law_sends_extend_the_queue(start, rest);
        let before = start.after_sends(rest);
        let kept = retained(held, before.queued);
        assert(rest.contains(kept));
        let i = choose|i: int| 0 <= i < rest.len() && rest[i] == kept;
        assert(items[i] == kept);
        assert(rest[0] == items[0]);
        if before.has_room() {
            assert(start.after_sends(items).queued.last() == items[items.len() - 1]);
        }
    }
}

/// Where the items sent carry strictly increasing stamps, all above those
/// already queued, the queue stays strictly increasing: the channel neither
/// reorders nor repeats.
pub proof fn law_sends_keep_stamps_increasing(channel: Fifo<int>, stamps: Seq<int>)
    requires
        strictly_increasing(channel.queued + stamps),
    ensures
        strictly_increasing(channel.after_sends(stamps).queued),
        forall|i: int|
            0 <= i < channel.after_sends(stamps).queued.len() ==> (channel.queued + stamps).contains(
                #[trigger] channel.after_sends(stamps).queued[i],
            ),
        stamps.len() > 0 ==> forall|i: int|
            0 <= i < channel.after_sends(stamps).queued.len()
                ==> #[trigger] channel.after_sends(stamps).queued[i] <= stamps.last(),
    decreases stamps.len(),
{
    let all = channel.queued + stamps;
    if stamps.len() == 0 {
        assert(all =~= channel.queued);
    } else {
        let rest = stamps.drop_last();
        let shorter = channel.queued + rest;
        assert(shorter =~= all.drop_last());
        assert(strictly_increasing(shorter)) by {
            assert forall|i: int, j: int| 0 <= i < j < shorter.len() implies shorter[i] < shorter[j] by {
                assert(shorter[i] == all[i] && shorter[j] == all[j]);
            }
        }
        law_sends_keep_stamps_increasing(channel, rest);
        let before = channel.after_sends(rest).queued;
        let after = channel.after_sends(stamps).queued;
        assert(all.last() == stamps.last());
        assert forall|i: int| 0 <= i < before.len() implies #[trigger] before[i] < stamps.last() by {
            assert(shorter.contains(before[i]));
            let k = choose|k: int| 0 <= k < shorter.len() && shorter[k] == before[i];
            assert(all[k] == before[i]);
            assert(all[all.len() - 1] == stamps.last());
        }
        assert forall|i: int| 0 <= i < after.len() implies all.contains(#[trigger] after[i]) by {
            if i < before.len() {
                assert(shorter.contains(before[i]));
                let k = choose|k: int| 0 <= k < shorter.len() && shorter[k] == before[i];
                assert(all[k] == after[i]);
            } else {
                assert(all[all.len() - 1] == after[i]);
            }
        }
    }
}

/// Recency: where the channel delivers stamps in strictly increasing order,
/// all above the stamp that the consumer holds, the stamp it holds after a
/// drain is never below the one it held before, and is the highest that was
/// queued.
pub proof fn law_drained_stamp_never_goes_back(channel: Fifo<int>, held: int)
    requires
        strictly_increasing(channel.queued),
        forall|i: int| 0 <= i < channel.queued.len() ==> held < #[trigger] channel.queued[i],
    ensures
        retained(held, channel.queued) >= held,
        forall|i: int|
            0 <= i < channel.queued.len() ==> #[trigger] channel.queued[i] <= retained(
                held,
                channel.queued,
            ),
{
}

/// A consumer at the end of a channel, as a value: the channel and the item
/// that the consumer holds.
pub struct Consumer<T> {
    pub channel: Fifo<T>,
    pub held: T,
}

impl<T> Consumer<T> {
    /// The consumer after one round: `burst` is sent, in order, and the
    /// consumer then drains the channel and keeps the last item it received.
    pub open spec fn after_round(self, burst: Seq<T>) -> Consumer<T> {
        let sent = self.channel.after_sends(burst);
        Consumer { channel: sent.after_drain(), held: retained(self.held, sent.queued) }
    }

    /// The consumer after the rounds of `bursts`, one after the other.
    pub open spec fn after_rounds(self, bursts: Seq<Seq<T>>) -> Consumer<T>
        decreases bursts.len(),
    {
        if bursts.len() == 0 {
            self
        } else {
            self.after_rounds(bursts.drop_last()).after_round(bursts.last())
        }
    }
}

/// Whether the stamps of `bursts` strictly increase in the order of sending,
/// within each burst and from each burst to the next, and all lie above
/// `floor`.
pub open spec fn sent_in_order(floor: int, bursts: Seq<Seq<int>>) -> bool {
    &&& forall|r: int, i: int|
        0 <= r < bursts.len() && 0 <= i < bursts[r].len() ==> floor < #[trigger] bursts[r][i]
    &&& forall|r: int, i: int, j: int|
        0 <= r < bursts.len() && 0 <= i < j < bursts[r].len() ==> #[trigger] bursts[r][i]
            < #[trigger] bursts[r][j]
    &&& forall|r: int, q: int, i: int, j: int|
        0 <= r < q < bursts.len() && 0 <= i < bursts[r].len() && 0 <= j < bursts[q].len()
            ==> #[trigger] bursts[r][i] < #[trigger] bursts[q][j]
}

/// Over any rounds of stamped sends into a channel that starts out empty,
/// the stamp that the consumer holds never goes back: after all the rounds
/// it is at least the stamp held after any smaller number of them. It is the
/// stamp that the consumer began with or one that was sent, and every round
/// leaves the channel empty.
pub proof fn law_rounds_never_go_back(start: Consumer<int>, bursts: Seq<Seq<int>>, earlier: int)
    requires
        start.channel.queued.len() == 0,
        start.channel.within_capacity(),
        sent_in_order(start.held, bursts),
        0 <= earlier <= bursts.len(),
    ensures
        start.after_rounds(bursts).channel.queued.len() == 0,
        start.after_rounds(bursts).channel.capacity == start.channel.capacity,
        start.after_rounds(bursts).held == start.held || exists|r: int, i: int|
            0 <= r < bursts.len() && 0 <= i < bursts[r].len() && start.after_rounds(bursts).held
                == #[trigger] bursts[r][i],
        start.after_rounds(bursts.take(earlier)).held <= start.after_rounds(bursts).held,
    decreases bursts.len(), bursts.len() - earlier,
{
    if bursts.len() == 0 {
        assert(bursts.take(earlier) =~= bursts);
    } else if earlier == bursts.len() {
        assert(bursts.take(earlier) =~= bursts);
        let rest = bursts.drop_last();
        assert forall|r: int| 0 <= r < rest.len() implies rest[r] == bursts[r] by {}
        law_rounds_never_go_back(start, rest, rest.len() as int);
        lemma_round_keeps_a_sent_stamp(start.after_rounds(rest), bursts.last());
        let end = start.after_rounds(bursts);
        if end.held != start.held {
            let before = start.after_rounds(rest);
            if end.held == before.held {
                let (r, i) = choose|r: int, i: int|
                    0 <= r < rest.len() && 0 <= i < rest[r].len() && before.held
                        == #[trigger] rest[r][i];
                assert(end.held == bursts[r][i]);
            } else {
                let i = choose|i: int| 0 <= i < bursts.last().len() && end.held == bursts.last()[i];
                assert(end.held == bursts[bursts.len() - 1][i]);
            }
        }
    } else {
        let rest = bursts.drop_last();
        assert forall|r: int| 0 <= r < rest.len() implies rest[r] == bursts[r] by {}
        assert(rest.take(earlier) =~= bursts.take(earlier));
        law_rounds_never_go_back(start, rest, earlier);
        law_rounds_never_go_back(start, rest, rest.len() as int);
        law_rounds_never_go_back(start, bursts, bursts.len() as int);
        let before = start.after_rounds(rest);
        let end = start.after_rounds(bursts);
        lemma_round_keeps_a_sent_stamp(before, bursts.last());
        if end.held != before.held {
            let j = choose|j: int| 0 <= j < bursts.last().len() && end.held == bursts.last()[j];
            assert(end.held == bursts[bursts.len() - 1][j]);
            if before.held != start.held {
                let (r, i) = choose|r: int, i: int|
                    0 <= r < rest.len() && 0 <= i < rest[r].len() && before.held
                        == #[trigger] rest[r][i];
                assert(bursts[r][i] < bursts[bursts.len() - 1][j]);
            }
        }
    }
}

/// One round from an empty channel leaves the channel empty and the consumer
/// with what it held or with one of the items of the burst.
proof fn lemma_round_keeps_a_sent_stamp(before: Consumer<int>, burst: Seq<int>)
    requires
        before.channel.queued.len() == 0,
        before.channel.within_capacity(),
    ensures
        before.after_round(burst).channel.queued.len() == 0,
        before.after_round(burst).channel.capacity == before.channel.capacity,
        before.after_round(burst).channel.within_capacity(),
        before.after_round(burst).held == before.held || exists|i: int|
            0 <= i < burst.len() && before.after_round(burst).held == burst[i],
{
    law_sends_extend_the_queue(before.channel, burst);
    lemma_queue_holds_sent_items(before.channel, burst);
    let queued = before.channel.after_sends(burst).queued;
    if queued.len() > 0 {
        assert(burst.contains(queued[queued.len() - 1]));
    }
}

/// What is queued after sends into an empty channel was sent.
proof fn lemma_queue_holds_sent_items<T>(channel: Fifo<T>, items: Seq<T>)
    requires
        channel.queued.len() == 0,
    ensures
        forall|i: int|
            0 <= i < channel.after_sends(items).queued.len() ==> items.contains(
                #[trigger] channel.after_sends(items).queued[i],
            ),
    decreases items.len(),
{
    if items.len() > 0 {
        let rest = items.drop_last();
        lemma_queue_holds_sent_items(channel, rest);
        let before = channel.after_sends(rest).queued;
        let after = channel.after_sends(items).queued;
        assert forall|i: int| 0 <= i < after.len() implies items.contains(#[trigger] after[i]) by {
            if i < before.len() {
                assert(rest.contains(before[i]));
                let k = choose|k: int| 0 <= k < rest.len() && rest[k] == before[i];
                assert(items[k] == after[i]);
            } else {
                assert(items[items.len() - 1] == after[i]);
            }
        }
    }
}

} // verus!
