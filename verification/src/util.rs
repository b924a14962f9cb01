//! Buttons and the events that travel through the mailbox.

use vstd::prelude::*;
use crate::calendar::DateTime;
use crate::wifi::RequestData;

verus! {

/// Number of events the mailbox holds before a sender has to wait.
pub const QUEUE_CAPACITY: usize = 8;

/// The six physical buttons.
#[derive(Debug, PartialEq, Eq, Clone, Copy, Structural)]
pub enum Button {
    Up,
    Down,
    Left,
    Right,
    A,
    B,
}

/// Everything the main loop can receive.
#[derive(Debug, PartialEq, Clone, Copy)]
pub enum Events {
    /// A button went down.
    ButtonPressed(Button),
    /// A button came back up.
    ButtonReleased(Button),
    /// The poller decoded a fresh result.
    DataUpdate(RequestData),
    /// The wall-clock time to seed the real-time clock with.
    RtcUpdate(DateTime),
    /// One beat of the session screen's blinking colon.
    FlashSessionScreen(bool),
    /// What a non-blocking receive yields when the mailbox is empty.
    Placeholder,
}

/// Turns the outcome of a non-blocking receive into an event: an empty
/// mailbox reads as [`Events::Placeholder`].
pub fn polled_event(received: Option<Events>) -> (event: Events)
    ensures
        event == (match received {
            Some(e) => e,
            None => Events::Placeholder,
        }),
{
    match received {
        Some(e) => e,
        None => Events::Placeholder,
    }
}

} // verus!
