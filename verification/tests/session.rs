use arcade_sprig::calendar::{DateTime, DayOfWeek};
use arcade_sprig::session::{
    flash, flash_task, init, update, Colon, SessionScreen, SessionStatus, SessionView,
    SESSION_INTERVAL, SESSION_MINUTES,
};
use arcade_sprig::util::Events;
use arcade_sprig::wifi::RequestData;

fn now() -> DateTime {
    DateTime {
        year: 2024,
        month: 8,
        day: 1,
        day_of_week: DayOfWeek::Thursday,
        hour: 9,
        minute: 30,
        second: 0,
    }
}

fn shown(screen: &mut SessionScreen, elapsed: u8, paused: bool) -> SessionView {
    update(screen, &RequestData::Session(elapsed, "write the report", paused), &now()).unwrap()
}

#[test]
fn session_constants() {
    assert_eq!(SESSION_INTERVAL, 1);
    assert_eq!(SESSION_MINUTES, 60);
}

#[test]
fn fresh_session_screen() {
    assert_eq!(
        SessionScreen::new(),
        SessionScreen { on_screen: false, flash: true, counted: false }
    );
}

#[test]
fn opening_puts_the_screen_on_display() {
    let mut screen = SessionScreen { on_screen: false, flash: false, counted: true };
    assert_eq!(init(&mut screen), 1);
    assert_eq!(screen, SessionScreen { on_screen: true, flash: false, counted: true });
}

#[test]
fn countdown_texts() {
    let mut screen = SessionScreen::new();
    assert_eq!(shown(&mut screen, 0, false).remaining_text(), "1:00");
    assert_eq!(shown(&mut screen, 1, false).remaining_text(), "0:59");
    assert_eq!(shown(&mut screen, 15, false).remaining_text(), "0:45");
    assert_eq!(shown(&mut screen, 51, false).remaining_text(), "0:09");
    assert_eq!(shown(&mut screen, 59, false).remaining_text(), "0:01");
    assert_eq!(shown(&mut screen, 60, false).remaining_text(), "DONE");
}

#[test]
fn minutes_past_the_hour_read_as_done() {
    let mut screen = SessionScreen::new();
    let view = shown(&mut screen, 61, false);
    assert_eq!(view.remaining, 0);
    assert_eq!(view.remaining_text(), "DONE");
    assert_eq!(view.bar, 120);
    assert_eq!(view.status, SessionStatus::Finished);
    let view = shown(&mut screen, 255, true);
    assert_eq!(view.remaining_text(), "DONE");
    assert_eq!(view.bar, 120);
}

#[test]
fn session_bar_width() {
    let mut screen = SessionScreen::new();
    assert_eq!(shown(&mut screen, 0, false).bar, 0);
    assert_eq!(shown(&mut screen, 1, false).bar, 2);
    assert_eq!(shown(&mut screen, 30, false).bar, 60);
    assert_eq!(shown(&mut screen, 59, false).bar, 118);
    assert_eq!(shown(&mut screen, 60, false).bar, 120);
}

#[test]
fn session_status() {
    let mut screen = SessionScreen::new();
    assert_eq!(shown(&mut screen, 10, false).status, SessionStatus::Ongoing);
    assert_eq!(shown(&mut screen, 10, true).status, SessionStatus::Paused);
    assert_eq!(shown(&mut screen, 60, false).status, SessionStatus::Finished);
    assert_eq!(shown(&mut screen, 60, true).status, SessionStatus::Finished);
    assert_eq!(SessionStatus::Ongoing.label(), "Ongoing");
    assert_eq!(SessionStatus::Paused.label(), "Paused");
    assert_eq!(SessionStatus::Finished.label(), "Finished");
}

#[test]
fn session_view_carries_the_goal() {
    let mut screen = SessionScreen::new();
    let view = update(&mut screen, &RequestData::Session(20, "tidy the desk", true), &now());
    assert_eq!(
        view,
        Some(SessionView {
            remaining: 40,
            status: SessionStatus::Paused,
            bar: 40,
            goal: "tidy the desk",
            completed: false,
        })
    );
}

#[test]
fn finished_session_is_counted_once() {
    let mut screen = SessionScreen::new();
    assert!(!shown(&mut screen, 59, false).completed);
    assert!(shown(&mut screen, 60, false).completed);
    assert!(!shown(&mut screen, 60, false).completed);
    assert!(!shown(&mut screen, 60, false).completed);
    assert!(screen.counted);
    assert!(!shown(&mut screen, 3, false).completed);
    assert!(!screen.counted);
    assert!(shown(&mut screen, 60, false).completed);
    assert!(!shown(&mut screen, 60, false).completed);
}

#[test]
fn colon_stops_blinking_when_the_session_is_over() {
    let mut screen = SessionScreen::new();
    shown(&mut screen, 59, false);
    assert!(screen.flash);
    assert_eq!(flash(&screen, true), Some(Colon::Erase));
    assert_eq!(flash(&screen, false), Some(Colon::Draw));
    shown(&mut screen, 60, false);
    assert!(!screen.flash);
    assert_eq!(flash(&screen, true), None);
    assert_eq!(flash(&screen, false), None);
}

#[test]
fn session_ignores_what_is_not_a_session() {
    let mut screen = SessionScreen { on_screen: true, flash: true, counted: false };
    assert_eq!(update(&mut screen, &RequestData::Stats(60), &now()), None);
    assert_eq!(update(&mut screen, &RequestData::Empty, &now()), None);
    assert_eq!(screen, SessionScreen { on_screen: true, flash: true, counted: false });
}

#[test]
fn ticker_beats_while_the_screen_is_on_display() {
    let mut screen = SessionScreen::new();
    init(&mut screen);
    let mut phase = false;
    assert_eq!(flash_task(&screen, &mut phase), Some(Events::FlashSessionScreen(false)));
    assert_eq!(flash_task(&screen, &mut phase), Some(Events::FlashSessionScreen(true)));
    assert_eq!(flash_task(&screen, &mut phase), Some(Events::FlashSessionScreen(false)));
    assert!(phase);
    screen.on_screen = false;
    assert_eq!(flash_task(&screen, &mut phase), None);
    assert!(phase);
}
