//! The process-wide publish/subscribe bus, modelled as an append-only log of
//! events plus one cursor per subscription.
//!
//! Publishing appends to the log and never blocks and never fails, whatever
//! the subscribers do. A subscription observes only events published after it
//! was created. Each subscription has a bounded backlog: when more than
//! `capacity` events pile up behind a cursor, the next receive reports exactly
//! how many events were skipped and resumes at the oldest retained event,
//! rather than stalling the publisher or dropping silently.

use vstd::prelude::*;

use crate::event::Event;

verus! {

/// What one receive attempt yields.
#[derive(Clone, Copy, Debug, PartialEq, Eq, Structural)]
pub enum BusRecv {
    /// The next event, in publish order.
    Message(Event),
    /// The subscriber stalled past the backlog capacity; this many events
    /// were skipped. The cursor now stands at the oldest retained event.
    Lagged(usize),
    /// Nothing published yet beyond this cursor; the caller would wait.
    Empty,
}

/// The bus: every event ever published, in order, and the backlog bound
/// shared by all subscriptions.
pub struct EventBus {
    pub events: Vec<Event>,
    pub capacity: usize,
}

/// A subscription: a cursor into the bus log. Events before the cursor have
/// been delivered (or counted as skipped); events at or after it are pending.
pub struct Subscription {
    pub cursor: usize,
}

/// The result a receive attempt must yield for a given log, capacity and
/// cursor position.
pub open spec fn recv_result(log: Seq<Event>, capacity: nat, cursor: nat) -> BusRecv {
    if cursor >= log.len() {
        BusRecv::Empty
    } else if log.len() - cursor > capacity {
        BusRecv::Lagged((log.len() - capacity - cursor) as usize)
    } else {
        BusRecv::Message(log[cursor as int])
    }
}

/// Where the cursor stands after a receive attempt.
pub open spec fn next_cursor(log: Seq<Event>, capacity: nat, cursor: nat) -> nat {
    if cursor >= log.len() {
        cursor
    } else if log.len() - cursor > capacity {
        (log.len() - capacity) as nat
    } else {
        cursor + 1
    }
}

impl EventBus {
    /// A fresh bus with the given backlog bound per subscription.
    pub fn new(capacity: usize) -> (bus: EventBus)
        requires
            capacity >= 1,
        ensures
            bus.events@ =~= Seq::<Event>::empty(),
            bus.capacity == capacity,
    {
        EventBus { events: Vec::new(), capacity }
    }

    /// Append one event to the log. Fan-out is by cursor, so publishing is
    /// total: it cannot block on a slow subscriber and needs no subscriber
    /// at all to succeed.
    pub fn publish(&mut self, event: Event)
        ensures
            final(self).events@ == old(self).events@.push(event),
            final(self).capacity == old(self).capacity,
    {
        self.events.push(event);
    }

    /// A new subscription. It starts at the end of the log: history is not
    /// replayed, only events published after this call are observed.
    pub fn subscribe(&self) -> (sub: Subscription)
        ensures
            sub.cursor == self.events@.len(),
    {
        Subscription { cursor: self.events.len() }
    }

    /// One receive attempt on `sub`. Delivers the next pending event, or a
    /// lag notice with the exact number of skipped events, or reports that
    /// nothing is pending yet.
    pub fn recv(&self, sub: &mut Subscription) -> (r: BusRecv)
        requires
            old(sub).cursor <= self.events@.len(),
        ensures
            r == recv_result(self.events@, self.capacity as nat, old(sub).cursor as nat),
            final(sub).cursor == next_cursor(self.events@, self.capacity as nat, old(sub).cursor as nat),
            final(sub).cursor <= self.events@.len(),
            old(sub).cursor <= final(sub).cursor,
    {
        let len = self.events.len();
        if sub.cursor >= len {
            BusRecv::Empty
        } else if len - sub.cursor > self.capacity {
            let skipped = len - self.capacity - sub.cursor;
            sub.cursor = len - self.capacity;
            BusRecv::Lagged(skipped)
        } else {
            let event = self.events[sub.cursor];
            sub.cursor = sub.cursor + 1;
            BusRecv::Message(event)
        }
    }
}

/// A receive attempt never moves a cursor backwards, and moves it forward
/// whenever it yields anything at all.
pub proof fn lemma_cursor_monotone(log: Seq<Event>, capacity: nat, cursor: nat)
    requires
        cursor <= log.len(),
    ensures
        next_cursor(log, capacity, cursor) >= cursor,
        recv_result(log, capacity, cursor) !is Empty ==> next_cursor(log, capacity, cursor) > cursor,
        next_cursor(log, capacity, cursor) <= log.len(),
{
}

/// Per-producer ordering: if one receive on a subscription delivers the event
/// at log position `cursor`, every later receive on the same subscription
/// delivers an event from a strictly later position, even if the log has
/// grown in between. So for any two events A then B appended by publishing,
/// a subscriber that observes both observes A before B.
pub proof fn lemma_delivery_in_publish_order(
    log1: Seq<Event>,
    log2: Seq<Event>,
    capacity: nat,
    cursor: nat,
    later: nat,
)
    requires
        cursor <= log1.len(),
        log1.len() <= log2.len(),
        log2.subrange(0, log1.len() as int) == log1,
        recv_result(log1, capacity, cursor) is Message,
        next_cursor(log1, capacity, cursor) <= later,
        recv_result(log2, capacity, later) is Message,
    ensures
        recv_result(log1, capacity, cursor) == BusRecv::Message(log2[cursor as int]),
        recv_result(log2, capacity, later) == BusRecv::Message(log2[later as int]),
        cursor < later,
{
    assert(log2[cursor as int] == log1[cursor as int]);
}

/// Publishing never disturbs history: the log after an append extends the
/// log before it, which is exactly what the ordering lemma asks of any two
/// receives with publishing in between.
pub proof fn lemma_publish_preserves_history(log: Seq<Event>, event: Event)
    ensures
        log.push(event).len() == log.len() + 1,
        log.push(event).subrange(0, log.len() as int) == log,
{
    assert(log.push(event).subrange(0, log.len() as int) =~= log);
}

/// Lag is announced exactly once per stall episode: the receive that reports
/// `Lagged` counts every skipped event, and the very next receive (with no
/// further publishing) yields the oldest retained event, not another notice.
pub proof fn lemma_lag_notice_then_resume(log: Seq<Event>, capacity: nat, cursor: nat)
    requires
        capacity >= 1,
        cursor <= log.len(),
        log.len() - cursor > capacity,
    ensures
        recv_result(log, capacity, cursor) == BusRecv::Lagged((log.len() - capacity - cursor) as usize),
        ({
            let resumed = next_cursor(log, capacity, cursor);
            recv_result(log, capacity, resumed) == BusRecv::Message(log[resumed as int])
        }),
{
}

/// A stalled subscriber is told the skip count and then misses nothing more:
/// the events skipped plus the events still deliverable add up exactly to
/// the events that were pending before the lag notice.
pub proof fn lemma_lag_accounts_for_every_event(log: Seq<Event>, capacity: nat, cursor: nat)
    requires
        cursor <= log.len(),
        log.len() - cursor > capacity,
    ensures
        ({
            let skipped = (log.len() - capacity - cursor) as nat;
            let retained = (log.len() - next_cursor(log, capacity, cursor)) as nat;
            skipped + retained == log.len() - cursor
        }),
{
}

} // verus!
