//! The session screen: the countdown of a one-hour work session, its status,
//! the blinking colon, and the latch that counts a finished session once.

use vstd::prelude::*;
use crate::calendar::DateTime;
use crate::home::{bar_width, BAR_WIDTH};
use crate::text::digit_char;
use crate::util::Events;
use crate::wifi::RequestData;

verus! {

/// Minutes between two polls while the session screen is shown.
pub const SESSION_INTERVAL: u8 = 1;

/// Length of a session in minutes.
pub const SESSION_MINUTES: u8 = 60;

/// State the session screen keeps between events.
#[derive(Clone, Copy, Debug, PartialEq, Eq, Structural)]
pub struct SessionScreen {
    /// Set while the screen is on display; the ticker stops once it is clear.
    pub on_screen: bool,
    /// Set while the colon of the countdown blinks.
    pub flash: bool,
    /// Set once the running session has been counted as finished.
    pub counted: bool,
}

/// Whether a session is running.
#[derive(Clone, Copy, Debug, PartialEq, Eq, Structural)]
pub enum SessionStatus {
    Paused,
    Ongoing,
    Finished,
}

/// What the blink of the colon does to the display.
#[derive(Clone, Copy, Debug, PartialEq, Eq, Structural)]
pub enum Colon {
    /// Paint over the colon.
    Erase,
    /// Paint the colon.
    Draw,
}

/// What an update of the session screen puts on display.
#[derive(Clone, Copy, Debug, PartialEq, Eq)]
pub struct SessionView {
    /// Minutes of the session that are left.
    pub remaining: u8,
    /// Whether the session is paused, running or over.
    pub status: SessionStatus,
    /// Width of the progress bar in pixels.
    pub bar: u32,
    /// What the session is for.
    pub goal: &'static str,
    /// Set on the one update that finds the session newly finished.
    pub completed: bool,
}

/// Minutes left of a session after `elapsed` minutes.
pub open spec fn minutes_left(elapsed: u8) -> int {
    if elapsed >= SESSION_MINUTES {
        0
    } else {
        SESSION_MINUTES - elapsed
    }
}

/// The countdown as text: `1:00` for a full hour, `DONE` when nothing is
/// left, else `0:` and the minutes in two digits.
pub open spec fn countdown_text(remaining: u8) -> Seq<char> {
    if remaining >= SESSION_MINUTES {
        "1:00"@
    } else if remaining == 0 {
        "DONE"@
    } else {
        seq!['0', ':', digit_char(remaining as int / 10), digit_char(remaining as int % 10)]
    }
}

/// The status of a session: over after the full hour, else paused or running
/// as reported.
pub open spec fn status_of(elapsed: u8, paused: bool) -> SessionStatus {
    if elapsed >= SESSION_MINUTES {
        SessionStatus::Finished
    } else if paused {
        SessionStatus::Paused
    } else {
        SessionStatus::Ongoing
    }
}

/// What [`update`] returns and leaves behind, as a function of what it was
/// given. A session is counted as finished on the first update that reports
/// the full hour; the latch opens again with the next update that reports
/// less.
pub open spec fn update_result(screen: SessionScreen, data: RequestData) -> (
    SessionScreen,
    Option<SessionView>,
) {
    match data {
        RequestData::Session(elapsed, goal, paused) => {
            let done = elapsed >= SESSION_MINUTES;
            (
                SessionScreen {
                    on_screen: screen.on_screen,
                    flash: screen.flash && !done,
                    counted: done,
                },
                Some(
                    SessionView {
                        remaining: minutes_left(elapsed) as u8,
                        status: status_of(elapsed, paused),
                        bar: bar_width(elapsed as int, SESSION_MINUTES as int) as u32,
                        goal,
                        completed: done && !screen.counted,
                    },
                ),
            )
        },
        _ => (screen, None),
    }
}

impl SessionScreen {
    /// The state at power-up: not on display, colon blinking, nothing counted.
    pub fn new() -> (screen: SessionScreen)
        ensures
            screen == (SessionScreen { on_screen: false, flash: true, counted: false }),
    {
        SessionScreen { on_screen: false, flash: true, counted: false }
    }
}

impl SessionStatus {
    /// The label shown in the corner of the screen.
    pub fn label(&self) -> (text: &'static str)
        ensures
            text@ == (match *self {
                SessionStatus::Paused => "Paused"@,
                SessionStatus::Ongoing => "Ongoing"@,
                SessionStatus::Finished => "Finished"@,
            }),
    {
        match self {
            SessionStatus::Paused => "Paused",
            SessionStatus::Ongoing => "Ongoing",
            SessionStatus::Finished => "Finished",
        }
    }
}

impl SessionView {
    /// Renders the countdown.
    pub fn remaining_text(&self) -> (text: String)
        ensures
            text@ == countdown_text(self.remaining),
    {
        if self.remaining >= SESSION_MINUTES {
            String::from_str("1:00")
        } else if self.remaining == 0 {
            String::from_str("DONE")
        } else {
            let mut text = String::from_str("0:");
            crate::text::push_two_digits(&mut text, self.remaining);
            proof {
                reveal_strlit("0:");
            }
            assert(text@ =~= countdown_text(self.remaining));
            text
        }
    }
}

/// Opens the session screen: it is on display from now on, and the caller
/// starts the ticker. Returns the minutes between two polls.
pub fn init(screen: &mut SessionScreen) -> (interval: u8)
    ensures
        interval == SESSION_INTERVAL,
        *final(screen) == (SessionScreen { on_screen: true, ..*old(screen) }),
{
    screen.on_screen = true;
    SESSION_INTERVAL
}

/// One beat of the ticker, to be called once a second. While the screen is on
/// display it yields the blink event for this beat and flips the phase for the
/// next; once the screen is gone it yields nothing, and the ticker ends.
pub fn flash_task(screen: &SessionScreen, flashing: &mut bool) -> (beat: Option<Events>)
    ensures
        screen.on_screen ==> beat == Some(Events::FlashSessionScreen(*old(flashing)))
            && *final(flashing) == !*old(flashing),
        !screen.on_screen ==> beat is None && *final(flashing) == *old(flashing),
{
    if screen.on_screen {
        let beat = Events::FlashSessionScreen(*flashing);
        *flashing = !*flashing;
        Some(beat)
    } else {
        None
    }
}

/// What a blink event does to the display: while the colon blinks, it is
/// erased on one phase and drawn on the other; once the session is over the
/// display is left alone.
pub fn flash(screen: &SessionScreen, phase: bool) -> (colon: Option<Colon>)
    ensures
        colon == (if !screen.flash {
            None
        } else if phase {
            Some(Colon::Erase)
        } else {
            Some(Colon::Draw)
        }),
{
    if screen.flash {
        if phase {
            Some(Colon::Erase)
        } else {
            Some(Colon::Draw)
        }
    } else {
        None
    }
}

/// Takes a fetch result. A session report is turned into what the screen
/// shows; anything else is ignored and changes nothing.
pub fn update(screen: &mut SessionScreen, data: &RequestData, now: &DateTime) -> (shown: Option<
    SessionView,
>)
    ensures
        (*final(screen), shown) == update_result(*old(screen), *data),
        shown is Some ==> shown->Some_0.bar <= BAR_WIDTH,
{
    match data {
        RequestData::Session(elapsed, goal, paused) => {
            let done = *elapsed >= SESSION_MINUTES;
            let completed = done && !screen.counted;
            screen.counted = done;
            if done {
                screen.flash = false;
            }
            let status = if done {
                SessionStatus::Finished
            } else if *paused {
                SessionStatus::Paused
            } else {
                SessionStatus::Ongoing
            };
            let remaining: u8 = if done {
                0
            } else {
                SESSION_MINUTES - *elapsed
            };
            let bar: u32 = if done {
                BAR_WIDTH
            } else {
                2 * (*elapsed as u32)
            };
            Some(SessionView { remaining, status, bar, goal: *goal, completed })
        },
        _ => None,
    }
}

/// A finished session is counted once: of two updates in a row that report
/// the full hour, the second never counts it again; and after an update that
/// reports less, the next full hour counts.
pub proof fn lemma_counted_once(
    screen: SessionScreen,
    first: u8,
    second: u8,
    goal: &'static str,
    paused: bool,
)
    requires
        second >= SESSION_MINUTES,
    ensures
        ({
            let between = update_result(screen, RequestData::Session(first, goal, paused)).0;
            let shown = update_result(between, RequestData::Session(second, goal, paused)).1;
            shown is Some && shown->Some_0.completed == (first < SESSION_MINUTES)
        }),
{
}

} // verus!
