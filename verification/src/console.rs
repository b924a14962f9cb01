//! The main loop's decisions: what each event does to the state of the
//! device, and what the caller is to draw, send and arrange in response.

use vstd::prelude::*;
use crate::calendar::DateTime;
use crate::campaign::{net_tickets, Campaign};
use crate::gui::{Panels, ScreenUpdate, Screens, Setup};
use crate::home::{HomeScreen, SubView};
use crate::nav::{
    activation_draws,
    chrome_for,
    lemma_activation_keeps_bar,
    lemma_painted_all_unfold,
    lemma_selection_keeps_bar,
    moved,
    move_nav,
    painted_all,
    select_btn,
    selection_draws,
    shows,
    Bar,
    Chrome,
    NavButton,
    NavDraw,
    NavigationState,
};
use crate::queue::EventQueue;
use crate::session::{Colon, SessionScreen};
use crate::util::{Button, Events};
use crate::wifi::RequestData;

verus! {

/// Everything the main loop owns.
#[derive(Clone, Copy, Debug, PartialEq, Eq)]
pub struct Console {
    /// The cursor and the open slot of the navigation bar.
    pub nav: NavigationState,
    /// The screen that is open.
    pub screen: Screens,
    /// The state of each screen.
    pub panels: Panels,
    /// The latest ticket count.
    pub tickets: u16,
    /// The campaign that progress is measured against.
    pub campaign: Campaign,
}

/// Something for the caller to carry out.
#[derive(Clone, Copy, Debug, PartialEq)]
pub enum Action {
    /// Wipe the content area below the navigation bar.
    ClearContent,
    /// Point the poller at this resource and cadence; start the blink ticker
    /// if it says so.
    Open(Setup),
    /// Wipe the home screen's content and draw the side bar of this view.
    ShowSubView(SubView),
    /// Ask the poller for a fetch right away.
    SignalPoll,
    /// Put this on the open screen.
    Show(ScreenUpdate),
    /// Erase or draw the colon of the countdown.
    Blink(Colon),
    /// Send this event to the back of the mailbox.
    Requeue(Events),
    /// Set the real-time clock.
    SetClock(DateTime),
}

/// What the main loop does about one event.
#[derive(Clone, Debug, PartialEq)]
pub struct Reaction {
    /// Redraws of the navigation bar, to be carried out first and in order.
    pub draws: Vec<NavDraw>,
    /// What to do after that, in order.
    pub actions: Vec<Action>,
}

/// What one turn of the main loop did.
#[derive(Clone, Debug, PartialEq)]
pub struct Turn {
    /// The event the turn was about; [`Events::Placeholder`] when the mailbox
    /// was empty.
    pub event: Events,
    /// What is left for the caller to do.
    pub reaction: Reaction,
    /// Whether the event went back to the mailbox to wait for the clock.
    pub requeued: bool,
}

/// Whether an event has to wait: fetch results wait until the clock is set.
pub open spec fn must_wait(event: Events, now: Option<DateTime>) -> bool {
    event is DataUpdate && now is None
}

/// The event a turn is about: the oldest in the mailbox, or a placeholder
/// when there is none.
pub open spec fn next_event(waiting: Seq<Events>) -> Events {
    if waiting.len() > 0 {
        waiting.first()
    } else {
        Events::Placeholder
    }
}

/// The mailbox after a turn: the oldest event is gone, and stands at the
/// back again if it has to wait; all others keep their order.
pub open spec fn after_turn(waiting: Seq<Events>, now: Option<DateTime>) -> Seq<Events> {
    if waiting.len() == 0 {
        waiting
    } else if must_wait(waiting.first(), now) {
        waiting.drop_first().push(waiting.first())
    } else {
        waiting.drop_first()
    }
}

/// The screen behind a slot of the navigation bar; slots without a screen of
/// their own open the home screen.
pub open spec fn screen_for(slot: NavButton) -> Screens {
    match slot {
        NavButton::Session => Screens::Session,
        _ => Screens::Home,
    }
}

/// A ticket count one higher, unless it is already the largest.
pub open spec fn one_more(tickets: u16) -> u16 {
    if tickets < 65535 {
        (tickets + 1) as u16
    } else {
        tickets
    }
}

impl Console {
    /// A console measures progress against a proper campaign.
    pub open spec fn wf(&self) -> bool {
        self.campaign.wf()
    }

    /// The console after an event, with `now` the reading of the real-time
    /// clock, or nothing while the clock is unset.
    ///
    /// Left and Right move the cursor; A opens the slot under it; other
    /// buttons go to the open screen. A fetch result is taken in only when
    /// the clock is set: a ticket count replaces the latest count, the open
    /// screen is updated, and a session found newly finished adds one ticket.
    /// Everything else leaves the console as it is.
    pub open spec fn after(&self, event: Events, now: Option<DateTime>) -> Console {
        match event {
            Events::ButtonPressed(Button::Left) | Events::ButtonPressed(Button::Right) => Console {
                nav: NavigationState {
                    selected: moved(self.nav.selected, event->ButtonPressed_0),
                    active: self.nav.active,
                },
                ..*self
            },
            Events::ButtonPressed(Button::A) => {
                let screen = screen_for(self.nav.selected);
                Console {
                    nav: NavigationState {
                        selected: self.nav.selected,
                        active: self.nav.selected,
                    },
                    screen,
                    panels: screen.init_result(self.panels).0,
                    ..*self
                }
            },
            Events::ButtonPressed(button) => Console {
                panels: self.screen.input_result(self.panels, button).0,
                ..*self
            },
            Events::DataUpdate(data) => match now {
                Some(time) => {
                    let (panels, shown) = self.screen.update_result(
                        self.panels,
                        data,
                        self.tickets,
                        time,
                        self.campaign,
                    );
                    let latest = match data {
                        RequestData::Stats(count) => count,
                        _ => self.tickets,
                    };
                    Console {
                        panels,
                        tickets: match shown {
                            ScreenUpdate::Session(view) if view.completed => one_more(latest),
                            _ => latest,
                        },
                        ..*self
                    }
                },
                None => *self,
            },
            _ => *self,
        }
    }

    /// The redraws of the navigation bar that an event calls for.
    pub open spec fn draws(&self, event: Events) -> Seq<NavDraw> {
        match event {
            Events::ButtonPressed(Button::Left) | Events::ButtonPressed(Button::Right) => {
                selection_draws(
                    moved(self.nav.selected, event->ButtonPressed_0),
                    self.nav.selected,
                    self.nav.active,
                )
            },
            Events::ButtonPressed(Button::A) => activation_draws(
                self.nav.selected,
                self.nav.active,
            ),
            _ => Seq::<NavDraw>::empty(),
        }
    }

    /// What else an event calls for.
    ///
    /// Opening a slot clears the content area, sets up the screen and asks
    /// for a poll. A button that switches the home screen's sub-view shows
    /// that view and asks for a poll. A fetch result goes back to the mailbox
    /// while the clock is unset; with the clock set it is shown, unless the
    /// open screen has no use for it. A time stamp sets the clock. A blink
    /// reaches the colon only while the session screen is open.
    pub open spec fn actions(&self, event: Events, now: Option<DateTime>) -> Seq<Action> {
        match event {
            Events::ButtonPressed(Button::Left) | Events::ButtonPressed(Button::Right) => Seq::<
                Action,
            >::empty(),
            Events::ButtonPressed(Button::A) => seq![
                Action::ClearContent,
                Action::Open(screen_for(self.nav.selected).init_result(self.panels).1),
                Action::SignalPoll,
            ],
            Events::ButtonPressed(button) => match self.screen.input_result(self.panels, button).1 {
                Some(view) => seq![Action::ShowSubView(view), Action::SignalPoll],
                None => Seq::<Action>::empty(),
            },
            Events::ButtonReleased(_) => Seq::<Action>::empty(),
            Events::DataUpdate(data) => match now {
                Some(time) => match self.screen.update_result(
                    self.panels,
                    data,
                    self.tickets,
                    time,
                    self.campaign,
                ).1 {
                    ScreenUpdate::Ignored => Seq::<Action>::empty(),
                    shown => seq![Action::Show(shown)],
                },
                None => seq![Action::Requeue(event)],
            },
            Events::RtcUpdate(time) => seq![Action::SetClock(time)],
            Events::FlashSessionScreen(phase) => if self.screen == Screens::Session
                && self.panels.session.flash {
                seq![
                    Action::Blink(
                        if phase {
                            Colon::Erase
                        } else {
                            Colon::Draw
                        },
                    ),
                ]
            } else {
                Seq::<Action>::empty()
            },
            Events::Placeholder => Seq::<Action>::empty(),
        }
    }

    /// The console at power-up: the home screen open on its progress view,
    /// the cursor on the session slot, no tickets known.
    pub fn new(campaign: Campaign) -> (console: Console)
        requires
            campaign.wf(),
        ensures
            console.wf(),
            console == (Console {
                nav: NavigationState { selected: NavButton::Session, active: NavButton::Home },
                screen: Screens::Home,
                panels: Panels {
                    home: HomeScreen { view: SubView::Progress, drawn: false },
                    session: SessionScreen { on_screen: false, flash: true, counted: false },
                },
                tickets: 0,
                campaign,
            }),
    {
        Console {
            nav: NavigationState { selected: NavButton::Session, active: NavButton::Home },
            screen: Screens::Home,
            panels: Panels {
                home: HomeScreen { view: SubView::Progress, drawn: false },
                session: SessionScreen::new(),
            },
            tickets: 0,
            campaign,
        }
    }

    /// Lists the redraws that bring a bar of plain slots in line with the
    /// cursor and the open slot.
    pub fn opening_draws(&self) -> (draws: Vec<NavDraw>)
        ensures
            draws@ == seq![
                NavDraw { slot: self.nav.selected, chrome: Chrome::Selected },
                NavDraw { slot: self.nav.active, chrome: Chrome::Active },
            ],
    {
        let mut draws: Vec<NavDraw> = Vec::new();
        draws.push(NavDraw { slot: self.nav.selected, chrome: Chrome::Selected });
        draws.push(NavDraw { slot: self.nav.active, chrome: Chrome::Active });
        assert(draws@ =~= seq![
            NavDraw { slot: self.nav.selected, chrome: Chrome::Selected },
            NavDraw { slot: self.nav.active, chrome: Chrome::Active },
        ]);
        draws
    }

    /// Takes one event off the mailbox and decides what follows from it.
    /// `now` is the reading of the real-time clock, or nothing while the
    /// clock is unset.
    pub fn handle(&mut self, event: Events, now: Option<&DateTime>) -> (reaction: Reaction)
        requires
            old(self).wf(),
        ensures
            final(self).wf(),
            *final(self) == old(self).after(
                event,
                match now {
                    Some(time) => Some(*time),
                    None => None,
                },
            ),
            reaction.draws@ == old(self).draws(event),
            reaction.actions@ == old(self).actions(
                event,
                match now {
                    Some(time) => Some(*time),
                    None => None,
                },
            ),
    {
        let mut draws: Vec<NavDraw> = Vec::new();
        let mut actions: Vec<Action> = Vec::new();
        match event {
            Events::ButtonPressed(button) => match button {
                Button::Left | Button::Right => {
                    let (selected, moves) = move_nav(&self.nav.selected, &self.nav.active, &button);
                    self.nav.selected = selected;
                    draws = moves;
                },
                Button::A => {
                    let (active, moves) = select_btn(&self.nav.selected, &self.nav.active);
                    self.nav.active = active;
                    draws = moves;
                    actions.push(Action::ClearContent);
                    self.screen = match active {
                        NavButton::Session => Screens::Session,
                        _ => Screens::Home,
                    };
                    let setup = self.screen.init(&mut self.panels);
                    actions.push(Action::Open(setup));
                    actions.push(Action::SignalPoll);
                },
                other => {
                    match self.screen.input(&mut self.panels, other) {
                        Some(view) => {
                            actions.push(Action::ShowSubView(view));
                            actions.push(Action::SignalPoll);
                        },
                        None => {},
                    }
                },
            },
            Events::ButtonReleased(_) => {},
            Events::DataUpdate(data) => match now {
                None => {
                    actions.push(Action::Requeue(event));
                },
                Some(time) => {
                    let old_count: u16 = self.tickets;
                    match data {
                        RequestData::Stats(count) => {
                            self.tickets = count;
                        },
                        _ => {},
                    }
                    let shown = self.screen.update(
                        &mut self.panels,
                        &data,
                        old_count,
                        time,
                        &self.campaign,
                    );
                    match shown {
                        ScreenUpdate::Ignored => {},
                        ScreenUpdate::Session(view) => {
                            if view.completed && self.tickets < 65535 {
                                self.tickets = self.tickets + 1;
                            }
                            actions.push(Action::Show(shown));
                        },
                        _ => {
                            actions.push(Action::Show(shown));
                        },
                    }
                },
            },
            Events::RtcUpdate(time) => {
                actions.push(Action::SetClock(time));
            },
            Events::FlashSessionScreen(phase) => {
                match self.screen {
                    Screens::Session => match crate::session::flash(&self.panels.session, phase) {
                        Some(colon) => {
                            actions.push(Action::Blink(colon));
                        },
                        None => {},
                    },
                    Screens::Home => {},
                }
            },
            Events::Placeholder => {},
        }
        assert(draws@ =~= old(self).draws(event));
        assert(actions@ =~= old(self).actions(
            event,
            match now {
                Some(time) => Some(*time),
                None => None,
            },
        ));
        Reaction { draws, actions }
    }
}

/// Runs one turn of the main loop on the mailbox: takes the oldest event, or
/// a placeholder from an empty mailbox, and decides what follows from it. A
/// fetch result that finds the clock unset goes straight back to the end of
/// the mailbox, which always has room for it, and leaves the console
/// untouched; the caller should let other tasks run before the next turn.
pub fn pump(console: &mut Console, mailbox: &mut EventQueue, now: Option<&DateTime>) -> (turn:
    Turn)
    requires
        old(console).wf(),
        old(mailbox).wf(),
    ensures
        final(console).wf(),
        final(mailbox).wf(),
        turn.event == next_event(old(mailbox)@),
        turn.requeued == must_wait(
            turn.event,
            match now {
                Some(time) => Some(*time),
                None => None,
            },
        ),
        final(mailbox)@ == after_turn(
            old(mailbox)@,
            match now {
                Some(time) => Some(*time),
                None => None,
            },
        ),
        *final(console) == old(console).after(
            turn.event,
            match now {
                Some(time) => Some(*time),
                None => None,
            },
        ),
        turn.reaction.draws@ == old(console).draws(turn.event),
        turn.reaction.actions@ == (if turn.requeued {
            Seq::<Action>::empty()
        } else {
            old(console).actions(
                turn.event,
                match now {
                    Some(time) => Some(*time),
                    None => None,
                },
            )
        }),
{
    let event = mailbox.try_receive();
    let waits = match event {
        Events::DataUpdate(_) => now.is_none(),
        _ => false,
    };
    if waits {
        let sent = mailbox.try_send(event);
        assert(sent is Ok);
        Turn {
            event,
            reaction: Reaction { draws: Vec::new(), actions: Vec::new() },
            requeued: true,
        }
    } else {
        let reaction = console.handle(event, now);
        Turn { event, reaction, requeued: false }
    }
}

/// The opening redraws bring a bar of plain slots in line with the cursor and
/// the open slot.
pub proof fn lemma_opening_draws_show(bar: Bar, selected: NavButton, active: NavButton)
    requires
        forall|slot: NavButton| #[trigger] bar(slot) == Chrome::Plain,
    ensures
        shows(
            painted_all(
                bar,
                seq![
                    NavDraw { slot: selected, chrome: Chrome::Selected },
                    NavDraw { slot: active, chrome: Chrome::Active },
                ],
            ),
            selected,
            active,
        ),
{
    let draws = seq![
        NavDraw { slot: selected, chrome: Chrome::Selected },
        NavDraw { slot: active, chrome: Chrome::Active },
    ];
    let after = painted_all(bar, draws);
    assert forall|slot: NavButton| #[trigger] after(slot) == chrome_for(slot, selected, active) by {
        assert(bar(slot) == Chrome::Plain);
        lemma_painted_all_unfold(bar, draws, slot);
        lemma_painted_all_unfold(bar, draws.drop_last(), slot);
        lemma_painted_all_unfold(bar, draws.drop_last().drop_last(), slot);
    }
}

/// Whatever the event, once its redraws are carried out the navigation bar
/// shows the cursor and the open slot as they are after the event: the open
/// slot in active chrome, the cursor in selected chrome unless it sits on the
/// open slot, every other slot plain.
pub proof fn lemma_bar_follows_console(
    console: Console,
    event: Events,
    now: Option<DateTime>,
    bar: Bar,
)
    requires
        shows(bar, console.nav.selected, console.nav.active),
    ensures
        shows(
            painted_all(bar, console.draws(event)),
            console.after(event, now).nav.selected,
            console.after(event, now).nav.active,
        ),
{
    match event {
        Events::ButtonPressed(Button::Left) | Events::ButtonPressed(Button::Right) => {
            lemma_selection_keeps_bar(
                bar,
                moved(console.nav.selected, event->ButtonPressed_0),
                console.nav.selected,
                console.nav.active,
            );
        },
        Events::ButtonPressed(Button::A) => {
            lemma_activation_keeps_bar(bar, console.nav.selected, console.nav.active);
        },
        _ => {},
    }
}

/// A fetch result that arrives before the clock is set is neither lost nor
/// used: it goes back to the mailbox unchanged, nothing is drawn, and the
/// console stays as it was.
pub proof fn lemma_data_waits_for_clock(console: Console, data: RequestData)
    ensures
        console.after(Events::DataUpdate(data), None) == console,
        console.draws(Events::DataUpdate(data)) == Seq::<NavDraw>::empty(),
        console.actions(Events::DataUpdate(data), None) == seq![
            Action::Requeue(Events::DataUpdate(data)),
        ],
{
}

/// Waiting for the clock loses nothing and repeats nothing: after a turn
/// that found the clock unset, the mailbox holds the same events as before,
/// each as often as before, and those that did not have to wait are still in
/// the order they came in.
pub proof fn lemma_waiting_keeps_every_event(waiting: Seq<Events>)
    requires
        waiting.len() > 0,
        must_wait(waiting.first(), None),
    ensures
        after_turn(waiting, None).len() == waiting.len(),
        after_turn(waiting, None).to_multiset() == waiting.to_multiset(),
        after_turn(waiting, None).drop_last() == waiting.drop_first(),
        after_turn(waiting, None).last() == waiting.first(),
{
    let rest = waiting.drop_first();
    let first = waiting.first();
    assert(waiting =~= seq![first] + rest);
    assert(rest.push(first) =~= rest + seq![first]);
    vstd::seq_lib::lemma_multiset_commutative(seq![first], rest);
    vstd::seq_lib::lemma_multiset_commutative(rest, seq![first]);
    assert(rest.push(first).drop_last() =~= rest);
}

/// The bar picks up where it stopped: of two ticket counts shown one after
/// the other on the progress view, the second starts from the tickets the
/// first ended on, and comes without the ideal-pace marker.
pub proof fn lemma_bar_continues(console: Console, first: u16, second: u16, now: DateTime)
    requires
        console.screen == Screens::Home,
        console.panels.home.view == SubView::Progress,
    ensures
        ({
            let between = console.after(Events::DataUpdate(RequestData::Stats(first)), Some(now));
            let shown = between.actions(
                Events::DataUpdate(RequestData::Stats(second)),
                Some(now),
            );
            &&& between.tickets == first
            &&& shown.len() == 1
            &&& shown[0] matches Action::Show(ScreenUpdate::Progress(report))
            &&& report.previous == net_tickets(first as int, console.campaign.offset as int)
            &&& report.tickets == net_tickets(second as int, console.campaign.offset as int)
            &&& !report.overlay
        }),
{
}

/// A fetch result of the kind the open screen has no use for is dropped: the
/// screens stay as they were and nothing is shown.
pub proof fn lemma_mismatch_is_dropped(console: Console, data: RequestData, now: DateTime)
    requires
        match data {
            RequestData::Stats(_) => console.screen == Screens::Session,
            RequestData::Session(_, _, _) => console.screen == Screens::Home,
            RequestData::Empty => true,
        },
    ensures
        console.after(Events::DataUpdate(data), Some(now)).panels == console.panels,
        console.after(Events::DataUpdate(data), Some(now)).nav == console.nav,
        console.actions(Events::DataUpdate(data), Some(now)) == Seq::<Action>::empty(),
{
}

} // verus!
