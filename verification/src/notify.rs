//! Progress notifier: lifecycle events fanned out to subscribers over a
//! bounded buffer.
//!
//! The notifier is an explicit context object handed to whatever
//! publishes or subscribes; publication is fire-and-forget into a ring
//! of the last 16 events, so a slow or absent subscriber never blocks a
//! publisher and may miss events past the bound.  A subscriber starts at
//! the current position: events published before it attached are never
//! replayed.

use vstd::prelude::*;

verus! {

/// How many pending events the fan-out buffer retains.
pub const EVENT_BUFFER_CAPACITY: usize = 16;

/// A lifecycle event of a transfer.
#[derive(Clone, Debug, PartialEq)]
pub enum TransferEvent {
    /// A send began.
    Started { file: String },
    /// A send completed.
    Finished { file: String },
    /// A transfer failed, with the reason.
    Failed { file: String, err: String },
    /// A file arrived on the receive side.
    Received { file: String },
}

/// Clones an event field by field.
fn clone_event(ev: &TransferEvent) -> (r: TransferEvent)
    ensures
        r == *ev,
{
    match ev {
        TransferEvent::Started { file } => TransferEvent::Started { file: file.clone() },
        TransferEvent::Finished { file } => TransferEvent::Finished { file: file.clone() },
        TransferEvent::Failed { file, err } => TransferEvent::Failed {
            file: file.clone(),
            err: err.clone(),
        },
        TransferEvent::Received { file } => TransferEvent::Received { file: file.clone() },
    }
}

/// The broadcast hub: a ring of the most recent events and a count of
/// everything ever published.
pub struct Notifier {
    /// The retained events, oldest first; never more than the capacity.
    pub events: Vec<TransferEvent>,
    /// How many events were ever published.
    pub published: u64,
}

/// A subscriber's cursor into the event stream.
pub struct Subscriber {
    /// The position of the next event this subscriber would receive.
    pub next: u64,
}

/// What one poll of a subscriber yields.
#[derive(Debug)]
pub enum PollOutcome {
    /// Nothing new has been published.
    Empty,
    /// The subscriber fell behind the buffer bound and skipped ahead;
    /// the missed events are gone.
    Lagged,
    /// The next event, in publication order.
    Event(TransferEvent),
}

impl Notifier {
    /// The ring never holds more than the capacity, nor more than was
    /// ever published.
    pub open spec fn wf(self) -> bool {
        self.events@.len() <= EVENT_BUFFER_CAPACITY && self.events@.len() <= self.published
    }

    /// A fresh notifier with no subscribers and nothing published.
    pub fn new() -> (r: Notifier)
        ensures
            r.wf(),
            r.published == 0,
            r.events@ == Seq::<TransferEvent>::empty(),
    {
        Notifier { events: Vec::new(), published: 0 }
    }

    /// Publishes one event: appended to the ring, dropping the oldest
    /// retained event when the ring is full.  Never blocks, never fails,
    /// with or without subscribers.
    pub fn publish(&mut self, ev: TransferEvent)
        requires
            old(self).wf(),
            old(self).published < u64::MAX,
        ensures
            final(self).wf(),
            final(self).published == old(self).published + 1,
            final(self).events@ == if old(self).events@.len() < EVENT_BUFFER_CAPACITY {
                old(self).events@.push(ev)
            } else {
                old(self).events@.remove(0).push(ev)
            },
    {
        if self.events.len() == EVENT_BUFFER_CAPACITY {
            self.events.remove(0);
        }
        self.events.push(ev);
        self.published = self.published + 1;
    }

    /// Attaches a subscriber at the current position: nothing already
    /// published is ever replayed to it.
    pub fn subscribe(&self) -> (s: Subscriber)
        ensures
            s.next == self.published,
    {
        Subscriber { next: self.published }
    }

    /// The stream position of the oldest retained event.
    pub open spec fn oldest_retained(self) -> int {
        self.published - self.events@.len()
    }

    /// Polls one subscriber: nothing when it is caught up, a lag marker
    /// (skipping to the oldest retained event) when it fell behind the
    /// ring, and otherwise the next event in publication order.
    pub fn poll(&self, sub: &mut Subscriber) -> (r: PollOutcome)
        requires
            self.wf(),
            old(sub).next <= self.published,
        ensures
            final(sub).next <= self.published,
            old(sub).next == self.published ==> r is Empty && final(sub).next == old(sub).next,
            old(sub).next < self.oldest_retained() ==> r is Lagged && final(sub).next
                == self.oldest_retained(),
            self.oldest_retained() <= old(sub).next < self.published ==> (match r {
                PollOutcome::Event(e) => e == self.events@[old(sub).next - self.oldest_retained()]
                    && final(sub).next == old(sub).next + 1,
                _ => false,
            }),
    {
        let start = self.published - self.events.len() as u64;
        if sub.next == self.published {
            PollOutcome::Empty
        } else if sub.next < start {
            sub.next = start;
            PollOutcome::Lagged
        } else {
            let idx = (sub.next - start) as usize;
            let ev = clone_event(&self.events[idx]);
            sub.next = sub.next + 1;
            PollOutcome::Event(ev)
        }
    }
}

/// Publishes a lifecycle event to the notifier, fire-and-forget.
pub fn report_event(notifier: &mut Notifier, ev: TransferEvent)
    requires
        old(notifier).wf(),
        old(notifier).published < u64::MAX,
    ensures
        final(notifier).wf(),
        final(notifier).published == old(notifier).published + 1,
        final(notifier).events@ == if old(notifier).events@.len() < EVENT_BUFFER_CAPACITY {
            old(notifier).events@.push(ev)
        } else {
            old(notifier).events@.remove(0).push(ev)
        },
{
    notifier.publish(ev)
}

/// Reports a send of the named file: a start event, then the outcome
/// event — completion, as the transport reported no failure.
pub fn send_file(notifier: &mut Notifier, path: &str)
    requires
        old(notifier).wf(),
        old(notifier).published + 2 <= u64::MAX,
    ensures
        final(notifier).wf(),
        final(notifier).published == old(notifier).published + 2,
        final(notifier).events@.len() >= 2,
        (final(notifier).events@[final(notifier).events@.len() - 2] matches TransferEvent::Started {
            file,
        } && file@ == path@),
        (final(notifier).events@.last() matches TransferEvent::Finished { file } && file@
            == path@),
{
    report_event(notifier, TransferEvent::Started { file: path.to_owned() });
    report_event(notifier, TransferEvent::Finished { file: path.to_owned() });
}

} // verus!
