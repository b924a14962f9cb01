use arcade_sprig::calendar::{DateTime, DayOfWeek};
use arcade_sprig::campaign::Campaign;
use arcade_sprig::console::{pump, Action, Console};
use arcade_sprig::gui::ScreenUpdate;
use arcade_sprig::home::update_progress;
use arcade_sprig::nav::NavButton;
use arcade_sprig::queue::EventQueue;
use arcade_sprig::util::{Button, Events};
use arcade_sprig::wifi::RequestData;

fn clock() -> DateTime {
    DateTime {
        year: 2024,
        month: 6,
        day: 19,
        day_of_week: DayOfWeek::Wednesday,
        hour: 8,
        minute: 0,
        second: 0,
    }
}

#[test]
fn new_mailbox_is_empty() {
    let mut queue = EventQueue::new();
    assert_eq!(queue.len(), 0);
    assert!(queue.is_empty());
    assert!(!queue.is_full());
    assert_eq!(queue.try_receive(), Events::Placeholder);
    assert_eq!(queue.len(), 0);
}

#[test]
fn mailbox_hands_events_out_in_order() {
    let mut queue = EventQueue::new();
    let events = [
        Events::ButtonPressed(Button::A),
        Events::DataUpdate(RequestData::Stats(50)),
        Events::ButtonReleased(Button::A),
        Events::FlashSessionScreen(true),
        Events::RtcUpdate(clock()),
    ];
    for event in events {
        assert_eq!(queue.try_send(event), Ok(()));
    }
    assert_eq!(queue.len(), 5);
    for event in events {
        assert_eq!(queue.try_receive(), event);
    }
    assert!(queue.is_empty());
    assert_eq!(queue.try_receive(), Events::Placeholder);
}

#[test]
fn full_mailbox_hands_the_event_back() {
    let mut queue = EventQueue::new();
    for phase in [true, false, true, false, true, false, true, false] {
        assert!(!queue.is_full());
        assert_eq!(queue.try_send(Events::FlashSessionScreen(phase)), Ok(()));
    }
    assert!(queue.is_full());
    assert_eq!(queue.len(), 8);
    let late = Events::ButtonPressed(Button::B);
    assert_eq!(queue.try_send(late), Err(late));
    assert_eq!(queue.len(), 8);
    assert_eq!(queue.try_receive(), Events::FlashSessionScreen(true));
    assert_eq!(queue.len(), 7);
    assert_eq!(queue.try_send(late), Ok(()));
    for phase in [false, true, false, true, false, true, false] {
        assert_eq!(queue.try_receive(), Events::FlashSessionScreen(phase));
    }
    assert_eq!(queue.try_receive(), late);
    assert!(queue.is_empty());
}

#[test]
fn placeholder_in_the_mailbox_is_an_event_like_any_other() {
    let mut queue = EventQueue::new();
    assert_eq!(queue.try_send(Events::Placeholder), Ok(()));
    assert_eq!(queue.len(), 1);
    assert_eq!(queue.try_receive(), Events::Placeholder);
    assert_eq!(queue.len(), 0);
}

#[test]
fn turn_on_an_empty_mailbox_does_nothing() {
    let mut console = Console::new(Campaign::arcade());
    let before = console;
    let mut queue = EventQueue::new();
    let turn = pump(&mut console, &mut queue, None);
    assert_eq!(turn.event, Events::Placeholder);
    assert!(!turn.requeued);
    assert!(turn.reaction.draws.is_empty());
    assert!(turn.reaction.actions.is_empty());
    assert_eq!(console, before);
    assert!(queue.is_empty());
}

#[test]
fn turn_handles_the_oldest_event() {
    let mut console = Console::new(Campaign::arcade());
    let mut queue = EventQueue::new();
    queue.try_send(Events::ButtonPressed(Button::Right)).unwrap();
    queue.try_send(Events::ButtonPressed(Button::Right)).unwrap();
    let turn = pump(&mut console, &mut queue, None);
    assert_eq!(turn.event, Events::ButtonPressed(Button::Right));
    assert_eq!(turn.reaction.draws.len(), 3);
    assert_eq!(console.nav.selected, NavButton::Leaderboard);
    assert_eq!(queue.len(), 1);
}

#[test]
fn stats_before_the_clock_are_requeued_and_shown_once() {
    let mut console = Console::new(Campaign::arcade());
    let mut queue = EventQueue::new();
    let data = Events::DataUpdate(RequestData::Stats(50));
    queue.try_send(data).unwrap();
    let mut now: Option<DateTime> = None;

    let turn = pump(&mut console, &mut queue, now.as_ref());
    assert_eq!(turn.event, data);
    assert!(turn.requeued);
    assert!(turn.reaction.actions.is_empty());
    assert_eq!(console.tickets, 0);
    assert_eq!(queue.len(), 1);

    let turn = pump(&mut console, &mut queue, now.as_ref());
    assert!(turn.requeued);
    assert_eq!(queue.len(), 1);

    queue.try_send(Events::RtcUpdate(clock())).unwrap();
    let turn = pump(&mut console, &mut queue, now.as_ref());
    assert!(turn.requeued);
    assert_eq!(queue.len(), 2);

    let turn = pump(&mut console, &mut queue, now.as_ref());
    assert_eq!(turn.event, Events::RtcUpdate(clock()));
    assert_eq!(turn.reaction.actions, vec![Action::SetClock(clock())]);
    now = Some(clock());
    assert_eq!(queue.len(), 1);

    let turn = pump(&mut console, &mut queue, now.as_ref());
    assert_eq!(turn.event, data);
    assert!(!turn.requeued);
    assert_eq!(
        turn.reaction.actions,
        vec![Action::Show(ScreenUpdate::Progress(update_progress(
            50,
            0,
            &clock(),
            &Campaign::arcade(),
            true
        )))]
    );
    assert_eq!(console.tickets, 50);
    assert!(queue.is_empty());

    let turn = pump(&mut console, &mut queue, now.as_ref());
    assert_eq!(turn.event, Events::Placeholder);
    assert_eq!(console.tickets, 50);
}

#[test]
fn requeue_finds_room_in_a_full_mailbox() {
    let mut console = Console::new(Campaign::arcade());
    let mut queue = EventQueue::new();
    let data = Events::DataUpdate(RequestData::Session(10, "write", false));
    queue.try_send(data).unwrap();
    for _ in 0..7 {
        queue.try_send(Events::ButtonReleased(Button::Up)).unwrap();
    }
    assert!(queue.is_full());
    let turn = pump(&mut console, &mut queue, None);
    assert!(turn.requeued);
    assert_eq!(queue.len(), 8);
    for _ in 0..7 {
        assert_eq!(queue.try_receive(), Events::ButtonReleased(Button::Up));
    }
    assert_eq!(queue.try_receive(), data);
}
