//! The mailbox between the tasks and the main loop: a bounded queue that
//! hands events out in the order they came in.

use vstd::prelude::*;
use embassy_sync::blocking_mutex::raw::NoopRawMutex;
use embassy_sync::channel::Channel;
use crate::util::{Events, QUEUE_CAPACITY};

verus! {

/// The mailbox. It holds an `embassy_sync::channel::Channel` for eight events
/// behind its no-op mutex: the mailbox has one owner at a time.
#[verifier::external_body]
pub struct EventQueue {
    channel: Channel<NoopRawMutex, Events, 8>,
}

/// The events a mailbox holds, oldest first.
pub uninterp spec fn queue_events(queue: EventQueue) -> Seq<Events>;

/// Calls `Channel::new`: a new channel holds nothing.
#[verifier::external_body]
fn channel_new() -> (queue: EventQueue)
    ensures
        queue_events(queue) == Seq::<Events>::empty(),
{
    EventQueue { channel: Channel::new() }
}

/// Calls `Channel::try_send`: the event goes to the back of a channel that
/// holds fewer than eight, and a channel that holds eight is left as it is.
/// Returns whether the event went in.
#[verifier::external_body]
fn channel_try_send(queue: &mut EventQueue, event: Events) -> (sent: bool)
    ensures
        sent == (queue_events(*old(queue)).len() < 8),
        queue_events(*final(queue)) == (if sent {
            queue_events(*old(queue)).push(event)
        } else {
            queue_events(*old(queue))
        }),
{
    queue.channel.try_send(event).is_ok()
}

/// Calls `Channel::try_receive`: the oldest event leaves the channel and is
/// returned; an empty channel returns nothing and stays empty.
#[verifier::external_body]
fn channel_try_receive(queue: &mut EventQueue) -> (event: Option<Events>)
    ensures
        event == (if queue_events(*old(queue)).len() > 0 {
            Some(queue_events(*old(queue)).first())
        } else {
            None
        }),
        queue_events(*final(queue)) == (if queue_events(*old(queue)).len() > 0 {
            queue_events(*old(queue)).drop_first()
        } else {
            queue_events(*old(queue))
        }),
{
    queue.channel.try_receive().ok()
}

/// Calls `Channel::len`: the number of events the channel holds.
#[verifier::external_body]
fn channel_len(queue: &EventQueue) -> (len: usize)
    ensures
        len == queue_events(*queue).len(),
{
    queue.channel.len()
}

impl View for EventQueue {
    type V = Seq<Events>;

    open spec fn view(&self) -> Seq<Events> {
        queue_events(*self)
    }
}

impl EventQueue {
    /// A mailbox never holds more than its capacity.
    pub open spec fn wf(&self) -> bool {
        self@.len() <= QUEUE_CAPACITY
    }

    /// An empty mailbox.
    pub fn new() -> (queue: EventQueue)
        ensures
            queue@ == Seq::<Events>::empty(),
            queue.wf(),
    {
        channel_new()
    }

    /// The number of events waiting.
    pub fn len(&self) -> (len: usize)
        ensures
            len == self@.len(),
    {
        channel_len(self)
    }

    /// Whether no event is waiting.
    pub fn is_empty(&self) -> (empty: bool)
        ensures
            empty == (self@.len() == 0),
    {
        channel_len(self) == 0
    }

    /// Whether the mailbox is at its capacity, so that a sender has to wait.
    pub fn is_full(&self) -> (full: bool)
        ensures
            full == (self@.len() >= QUEUE_CAPACITY),
    {
        channel_len(self) >= QUEUE_CAPACITY
    }

    /// Puts an event at the back of the mailbox, or hands it back when the
    /// mailbox is full: nothing is ever dropped.
    pub fn try_send(&mut self, event: Events) -> (outcome: Result<(), Events>)
        requires
            old(self).wf(),
        ensures
            final(self).wf(),
            outcome == (if old(self)@.len() < QUEUE_CAPACITY {
                Ok::<(), Events>(())
            } else {
                Err::<(), Events>(event)
            }),
            final(self)@ == (if old(self)@.len() < QUEUE_CAPACITY {
                old(self)@.push(event)
            } else {
                old(self)@
            }),
    {
        if channel_try_send(self, event) {
            Ok(())
        } else {
            Err(event)
        }
    }

    /// Takes the oldest event out of the mailbox. An empty mailbox yields
    /// [`Events::Placeholder`] at once.
    pub fn try_receive(&mut self) -> (event: Events)
        requires
            old(self).wf(),
        ensures
            final(self).wf(),
            event == (if old(self)@.len() > 0 {
                old(self)@.first()
            } else {
                Events::Placeholder
            }),
            final(self)@ == (if old(self)@.len() > 0 {
                old(self)@.drop_first()
            } else {
                old(self)@
            }),
    {
        crate::util::polled_event(channel_try_receive(self))
    }
}

} // verus!
