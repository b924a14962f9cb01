//! The button sampler: from two snapshots of the six input lines to the one
//! event they stand for.

use vstd::prelude::*;
use crate::util::{Button, Events};

verus! {

/// Milliseconds to let a line settle after an edge before it is read again.
pub const DEBOUNCE_MILLIS: u64 = 20;

/// The levels of the six input lines. The lines are pulled up: a line is
/// high while its button is released and low while it is held down.
#[derive(Clone, Copy, Debug, PartialEq, Eq, Structural)]
pub struct Levels {
    pub a: bool,
    pub b: bool,
    pub up: bool,
    pub down: bool,
    pub left: bool,
    pub right: bool,
}

/// The order in which lines are looked at when several changed at once:
/// A, B, Up, Down, Left, Right.
pub open spec fn priority(button: Button) -> int {
    match button {
        Button::A => 0,
        Button::B => 1,
        Button::Up => 2,
        Button::Down => 3,
        Button::Left => 4,
        Button::Right => 5,
    }
}

impl Levels {
    /// Whether the line of `button` is high.
    pub open spec fn level(&self, button: Button) -> bool {
        match button {
            Button::A => self.a,
            Button::B => self.b,
            Button::Up => self.up,
            Button::Down => self.down,
            Button::Left => self.left,
            Button::Right => self.right,
        }
    }

    /// Reads the line of `button`.
    pub fn is_high(&self, button: Button) -> (high: bool)
        ensures
            high == self.level(button),
    {
        match button {
            Button::A => self.a,
            Button::B => self.b,
            Button::Up => self.up,
            Button::Down => self.down,
            Button::Left => self.left,
            Button::Right => self.right,
        }
    }
}

/// Whether the line of `button` differs between two snapshots.
pub open spec fn changed(before: Levels, after: Levels, button: Button) -> bool {
    before.level(button) != after.level(button)
}

/// Finds the button whose line changed between two snapshots. Where several
/// changed, the one first in the order A, B, Up, Down, Left, Right is
/// reported.
pub fn changed_button(before: &Levels, after: &Levels) -> (button: Option<Button>)
    ensures
        button is None <==> *before == *after,
        button is None <==> forall|b: Button| !#[trigger] changed(*before, *after, b),
        button matches Some(found) ==> changed(*before, *after, found) && forall|b: Button|
            priority(b) < priority(found) ==> !#[trigger] changed(*before, *after, b),
{
    let found = if before.a != after.a {
        Some(Button::A)
    } else if before.b != after.b {
        Some(Button::B)
    } else if before.up != after.up {
        Some(Button::Up)
    } else if before.down != after.down {
        Some(Button::Down)
    } else if before.left != after.left {
        Some(Button::Left)
    } else if before.right != after.right {
        Some(Button::Right)
    } else {
        None
    };
    proof {
        if found is None {
            assert forall|b: Button| !#[trigger] changed(*before, *after, b) by {}
        } else {
            assert(changed(*before, *after, found->Some_0));
        }
        if *before != *after {
            assert(changed(*before, *after, Button::A) || changed(*before, *after, Button::B)
                || changed(*before, *after, Button::Up) || changed(
                *before,
                *after,
                Button::Down,
            ) || changed(*before, *after, Button::Left) || changed(
                *before,
                *after,
                Button::Right,
            ));
        }
    }
    found
}

/// Turns the snapshot taken before the wait and the one taken after the
/// settle delay into the event to post: one button, pressed or released, or
/// nothing if the lines are back where they were.
pub fn debounced_event(before: &Levels, after: &Levels) -> (event: Option<Events>)
    ensures
        event is None <==> *before == *after,
        event matches Some(e) ==> (e matches Events::ButtonPressed(b) && changed(
            *before,
            *after,
            b,
        ) && !after.level(b) && forall|c: Button|
            priority(c) < priority(b) ==> !#[trigger] changed(*before, *after, c)) || (
        e matches Events::ButtonReleased(b) && changed(*before, *after, b) && after.level(b)
            && forall|c: Button|
            priority(c) < priority(b) ==> !#[trigger] changed(*before, *after, c)),
{
    match changed_button(before, after) {
        Some(button) => {
            if after.is_high(button) {
                Some(Events::ButtonReleased(button))
            } else {
                Some(Events::ButtonPressed(button))
            }
        },
        None => None,
    }
}

} // verus!
