//! The screens that can be open, and the dispatch of what happens to the one
//! that is.

use vstd::prelude::*;
use crate::calendar::DateTime;
use crate::campaign::Campaign;
use crate::home::{HomeScreen, HomeUpdate, ProgressReport, StatsReport, SubView, HOME_INTERVAL};
use crate::session::{SessionScreen, SessionView, SESSION_INTERVAL};
use crate::util::Button;
use crate::wifi::{RequestData, RequestType};

verus! {

/// The screens the device can show.
#[derive(Clone, Copy, Debug, PartialEq, Eq, Structural)]
pub enum Screens {
    Home,
    Session,
}

/// The state of every screen, open or not.
#[derive(Clone, Copy, Debug, PartialEq, Eq, Structural)]
pub struct Panels {
    pub home: HomeScreen,
    pub session: SessionScreen,
}

/// What opening a screen asks of the rest of the system.
#[derive(Clone, Copy, Debug, PartialEq, Eq, Structural)]
pub struct Setup {
    /// The resource the poller fetches from now on.
    pub request: RequestType,
    /// Minutes between two polls.
    pub interval: u8,
    /// Whether the blink ticker is to be started.
    pub ticker: bool,
}

/// What an update puts on display.
#[derive(Clone, Copy, Debug, PartialEq, Eq)]
pub enum ScreenUpdate {
    /// The data was not meant for the open screen; nothing changes.
    Ignored,
    Progress(ProgressReport),
    Stats(StatsReport),
    Session(SessionView),
}

impl Screens {
    /// The resource a screen lives on.
    pub open spec fn request(&self) -> RequestType {
        match *self {
            Screens::Home => RequestType::Stats,
            Screens::Session => RequestType::Session,
        }
    }

    /// What [`Screens::init`] returns and leaves behind.
    pub open spec fn init_result(&self, panels: Panels) -> (Panels, Setup) {
        match *self {
            Screens::Home => (
                Panels {
                    home: HomeScreen { view: panels.home.view, drawn: false },
                    session: SessionScreen { on_screen: false, ..panels.session },
                },
                Setup { request: RequestType::Stats, interval: HOME_INTERVAL, ticker: false },
            ),
            Screens::Session => (
                Panels {
                    home: panels.home,
                    session: SessionScreen { on_screen: true, ..panels.session },
                },
                Setup { request: RequestType::Session, interval: SESSION_INTERVAL, ticker: true },
            ),
        }
    }

    /// What [`Screens::input`] returns and leaves behind.
    pub open spec fn input_result(&self, panels: Panels, btn: Button) -> (Panels, Option<SubView>) {
        let view = match btn {
            Button::Up => SubView::Progress,
            Button::Down => SubView::Stats,
            _ => panels.home.view,
        };
        if *self == Screens::Home && view != panels.home.view {
            (
                Panels { home: HomeScreen { view, drawn: panels.home.drawn }, ..panels },
                Some(view),
            )
        } else {
            (panels, None)
        }
    }

    /// What [`Screens::update`] returns and leaves behind.
    pub open spec fn update_result(
        &self,
        panels: Panels,
        data: RequestData,
        old_count: u16,
        now: DateTime,
        campaign: Campaign,
    ) -> (Panels, ScreenUpdate) {
        match *self {
            Screens::Home => {
                let (home, shown) = crate::home::update_result(
                    panels.home,
                    data,
                    old_count,
                    now,
                    campaign,
                );
                (
                    Panels { home, ..panels },
                    match shown {
                        HomeUpdate::Ignored => ScreenUpdate::Ignored,
                        HomeUpdate::Progress(report) => ScreenUpdate::Progress(report),
                        HomeUpdate::Stats(report) => ScreenUpdate::Stats(report),
                    },
                )
            },
            Screens::Session => {
                let (session, shown) = crate::session::update_result(panels.session, data);
                (
                    Panels { session, ..panels },
                    match shown {
                        Some(view) => ScreenUpdate::Session(view),
                        None => ScreenUpdate::Ignored,
                    },
                )
            },
        }
    }

    /// Opens the screen. The blink ticker of a session screen that was open
    /// is told to stop before anything else; then the screen is set up, and
    /// the caller learns what to fetch, how often, and whether to start the
    /// ticker.
    pub fn init(&self, panels: &mut Panels) -> (setup: Setup)
        ensures
            (*final(panels), setup) == self.init_result(*old(panels)),
            setup.request == self.request(),
    {
        panels.session.on_screen = false;
        match self {
            Screens::Home => {
                let interval: u8 = crate::home::init(&mut panels.home);
                Setup { request: RequestType::Stats, interval, ticker: false }
            },
            Screens::Session => {
                let interval: u8 = crate::session::init(&mut panels.session);
                Setup { request: RequestType::Session, interval, ticker: true }
            },
        }
    }

    /// Hands a button to the open screen. Only the home screen listens; it
    /// answers with the sub-view to switch to, if the button changed it.
    pub fn input(&self, panels: &mut Panels, btn: Button) -> (switched: Option<SubView>)
        ensures
            (*final(panels), switched) == self.input_result(*old(panels), btn),
    {
        match self {
            Screens::Home => crate::home::input(&mut panels.home, btn),
            _ => None,
        }
    }

    /// Hands a fetch result to the open screen. A result of the wrong kind
    /// is ignored and changes nothing.
    pub fn update(
        &self,
        panels: &mut Panels,
        data: &RequestData,
        old_count: u16,
        now: &DateTime,
        campaign: &Campaign,
    ) -> (shown: ScreenUpdate)
        requires
            campaign.wf(),
        ensures
            (*final(panels), shown) == self.update_result(
                *old(panels),
                *data,
                old_count,
                *now,
                *campaign,
            ),
    {
        match self {
            Screens::Home => {
                match crate::home::update(&mut panels.home, data, old_count, now, campaign) {
                    HomeUpdate::Ignored => ScreenUpdate::Ignored,
                    HomeUpdate::Progress(report) => ScreenUpdate::Progress(report),
                    HomeUpdate::Stats(report) => ScreenUpdate::Stats(report),
                }
            },
            Screens::Session => {
                match crate::session::update(&mut panels.session, data, now) {
                    Some(view) => ScreenUpdate::Session(view),
                    None => ScreenUpdate::Ignored,
                }
            },
        }
    }
}

} // verus!
