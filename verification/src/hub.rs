//! The broadcast hub: one shared fan-out point between the mutation
//! service and the realtime subscribers.
//!
//! Publishing appends to a log and never blocks or fails; each subscriber
//! reads the log through its own cursor. A subscriber that falls more than
//! the buffer capacity behind skips the oldest pending events (lossy,
//! drop-oldest), but never sees events out of publish order and never sees
//! an event published before it subscribed.

use vstd::prelude::*;

use crate::model::Category;
use crate::model::ReorderItem;
use crate::model::Todo;
use crate::model::copy_category;
use crate::model::copy_reorder_items;
use crate::model::copy_todo;

verus! {

/// How many pending events a subscriber may lag behind before it starts
/// missing the oldest ones.
pub const HUB_CAPACITY: usize = 256;

/// One change event, published after a successful mutation. Deletion
/// events carry only the identifier; the others carry the full
/// post-mutation entity or the applied reorder batch.
#[derive(Debug, Clone, PartialEq)]
pub enum Event {
    TodoCreated(Todo),
    TodoUpdated(Todo),
    TodoDeleted(String),
    TodosReordered(Vec<ReorderItem>),
    CategoryCreated(Category),
    CategoryUpdated(Category),
    CategoryDeleted(String),
}

/// Events with the same shape and content. Equality on the reorder batch
/// goes by the entries it holds, not by the vector value.
pub open spec fn event_eq(a: Event, b: Event) -> bool {
    match (a, b) {
        (Event::TodosReordered(x), Event::TodosReordered(y)) => x@ == y@,
        _ => a == b,
    }
}

/// The envelope type label of an event.
pub open spec fn spec_event_type(e: Event) -> Seq<char> {
    match e {
        Event::TodoCreated(_) => "todo.created"@,
        Event::TodoUpdated(_) => "todo.updated"@,
        Event::TodoDeleted(_) => "todo.deleted"@,
        Event::TodosReordered(_) => "todos.reordered"@,
        Event::CategoryCreated(_) => "category.created"@,
        Event::CategoryUpdated(_) => "category.updated"@,
        Event::CategoryDeleted(_) => "category.deleted"@,
    }
}

/// The envelope type label of an event, as the realtime channel sends it.
pub fn event_type(e: &Event) -> (r: &'static str)
    ensures
        r@ == spec_event_type(*e),
{
    match e {
        Event::TodoCreated(_) => "todo.created",
        Event::TodoUpdated(_) => "todo.updated",
        Event::TodoDeleted(_) => "todo.deleted",
        Event::TodosReordered(_) => "todos.reordered",
        Event::CategoryCreated(_) => "category.created",
        Event::CategoryUpdated(_) => "category.updated",
        Event::CategoryDeleted(_) => "category.deleted",
    }
}

/// Copies an event; the copy has the same shape and content.
pub fn copy_event(e: &Event) -> (r: Event)
    ensures
        event_eq(r, *e),
{
    match e {
        Event::TodoCreated(t) => Event::TodoCreated(copy_todo(t)),
        Event::TodoUpdated(t) => Event::TodoUpdated(copy_todo(t)),
        Event::TodoDeleted(id) => Event::TodoDeleted(id.clone()),
        Event::TodosReordered(items) => Event::TodosReordered(copy_reorder_items(items)),
        Event::CategoryCreated(c) => Event::CategoryCreated(copy_category(c)),
        Event::CategoryUpdated(c) => Event::CategoryUpdated(copy_category(c)),
        Event::CategoryDeleted(id) => Event::CategoryDeleted(id.clone()),
    }
}

/// The log grew by exactly this one event: everything already published
/// stands unchanged, and the new last entry matches `e`.
pub open spec fn published(before: Seq<Event>, after: Seq<Event>, e: Event) -> bool {
    &&& after.len() == before.len() + 1
    &&& after.subrange(0, before.len() as int) == before
    &&& event_eq(after.last(), e)
}

/// The hub: the log of every event published since creation. Subscribers
/// keep their own cursors into it; the hub itself holds no per-subscriber
/// state.
///
/// The log is kept whole on purpose: it is the mathematical model the
/// contracts index into, and no subscriber can ever read more than
/// `HUB_CAPACITY` behind its end. A deployment that must bound memory
/// hands events to a bounded runtime channel instead, as this crate's
/// own binary does; the contracts here say which events such a channel
/// is allowed to deliver.
pub struct WsHub {
    pub events: Vec<Event>,
}

/// One subscription: `since` is the log length at subscription time,
/// `cursor` the index of the next event to observe.
pub struct WsSubscriber {
    pub since: usize,
    pub cursor: usize,
}

/// The index `recv` serves a subscriber whose cursor stands at `cursor`:
/// the cursor itself, or the oldest retained event once the subscriber
/// lags more than the buffer capacity.
pub open spec fn next_index(h: WsHub, cursor: int) -> int {
    if h.events@.len() - cursor > HUB_CAPACITY as int {
        h.events@.len() - HUB_CAPACITY as int
    } else {
        cursor
    }
}

impl WsHub {
    /// A hub with nothing published yet.
    pub fn new() -> (h: WsHub)
        ensures
            h.events@ == Seq::<Event>::empty(),
    {
        WsHub { events: Vec::new() }
    }

    /// Publishes one event: appends it to the log, in publish order.
    /// Never blocks and never fails; with no subscriber the event is
    /// simply never observed.
    pub fn publish(&mut self, e: Event)
        ensures
            final(self).events@ == old(self).events@.push(e),
    {
        self.events.push(e);
    }

    /// Subscribes a new connection: it will observe only events published
    /// from this point on, and cannot retrieve history.
    pub fn subscribe(&self) -> (s: WsSubscriber)
        ensures
            s.since == self.events@.len(),
            s.cursor == self.events@.len(),
    {
        let n = self.events.len();
        WsSubscriber { since: n, cursor: n }
    }
}

impl WsSubscriber {
    /// The cursor lies between the subscription point and the end of the
    /// log.
    pub open spec fn wf(&self, h: &WsHub) -> bool {
        self.since <= self.cursor <= h.events@.len()
    }

    /// Receives the next pending event, or `None` when the subscriber has
    /// seen everything published so far. A subscriber lagging more than
    /// the buffer capacity skips to the oldest retained event; skips move
    /// only forward, so events arrive in publish order and never from
    /// before the subscription.
    pub fn recv(&mut self, h: &WsHub) -> (r: Option<Event>)
        requires
            old(self).wf(h),
        ensures
            final(self).wf(h),
            final(self).since == old(self).since,
            ({
                let n = h.events@.len() as int;
                let c = old(self).cursor as int;
                if c >= n {
                    r is None && final(self).cursor == old(self).cursor
                } else {
                    let i = next_index(*h, c);
                    &&& c <= i < n
                    &&& old(self).since <= i
                    &&& r matches Some(e) && event_eq(e, h.events@[i])
                    &&& final(self).cursor == i + 1
                }
            }),
    {
        let n = h.events.len();
        if self.cursor >= n {
            return None;
        }
        let i = if n - self.cursor > HUB_CAPACITY {
            n - HUB_CAPACITY
        } else {
            self.cursor
        };
        let e = copy_event(&h.events[i]);
        self.cursor = i + 1;
        Some(e)
    }
}

/// A subscriber never observes anything from before its cursor: the index
/// `recv` serves never lies below the cursor, so events arrive in publish
/// order — later receives always yield later events, skipped or not.
pub proof fn lemma_recv_index_lower_bound(h: WsHub, c: int)
    ensures
        next_index(h, c) >= c,
{
}

/// A subscriber observes only events published after it connected: for
/// any state of the log, the index `recv` serves lies at or beyond the
/// subscription point.
pub proof fn lemma_subscriber_sees_only_later_events(h: WsHub, s: WsSubscriber)
    requires
        s.wf(&h),
        s.cursor < h.events@.len(),
    ensures
        next_index(h, s.cursor as int) >= s.since,
{
    lemma_recv_index_lower_bound(h, s.cursor as int);
}

/// A mutation's event reaches a subscriber that was connected and caught
/// up before it: once one event was published, a subscriber whose cursor
/// stood at the old end of the log is served exactly that event.
pub proof fn lemma_publish_then_recv(h0: WsHub, h1: WsHub, e: Event, c: int)
    requires
        published(h0.events@, h1.events@, e),
        c == h0.events@.len(),
    ensures
        next_index(h1, c) == c,
        event_eq(h1.events@[next_index(h1, c)], e),
{
}

} // verus!
