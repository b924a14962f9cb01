use arcade_sprig::calendar::{DateTime, DayOfWeek};
use arcade_sprig::util::Events;
use arcade_sprig::wifi::{
    authorization, clock_reading, configure_rtc, decode, fetch_data, parse_time, wifi_trigger,
    ClockFields, ClockSync, FetchReply, PollGate, PollScheduler, PollState, RequestData,
    RequestType, SessionData, SessionResponse, StatsData, StatsResponse, TimeData,
};

fn stats_reply(sessions: u32) -> FetchReply {
    FetchReply::Stats(StatsResponse {
        ok: true,
        data: Some(StatsData { sessions, total: 4000 }),
        error: None,
    })
}

fn session_reply(elapsed: u8, paused: bool) -> FetchReply {
    FetchReply::Session(SessionResponse {
        ok: true,
        data: Some(SessionData { elapsed, goal: "write", paused }),
        error: None,
    })
}

fn unauthorized() -> FetchReply {
    FetchReply::Stats(StatsResponse { ok: false, data: None, error: Some("unauthorized") })
}

#[test]
fn new_poller_fetches_ticket_counts() {
    assert_eq!(
        PollScheduler::new(),
        PollScheduler {
            state: PollState::Fetching,
            kind: RequestType::Stats,
            interval: 5,
            waited: 0,
            gate: PollGate::Idle,
        }
    );
}

#[test]
fn addresses() {
    let mut poller = PollScheduler::new();
    assert_eq!(poller.request_url("U123"), "http://hackhour.hackclub.com/api/stats/U123");
    poller.set_request(RequestType::Session, 1);
    assert_eq!(poller.request_url("U123"), "http://hackhour.hackclub.com/api/session/U123");
    assert_eq!(poller.request_url(""), "http://hackhour.hackclub.com/api/session/");
    assert_eq!(authorization("abc-def"), "Bearer abc-def");
}

#[test]
fn decoding_a_ticket_count() {
    assert_eq!(decode(&stats_reply(50)), Some(RequestData::Stats(50)));
    assert_eq!(decode(&stats_reply(0)), Some(RequestData::Stats(0)));
    assert_eq!(decode(&stats_reply(65535)), Some(RequestData::Stats(65535)));
}

#[test]
fn ticket_count_keeps_its_low_sixteen_bits() {
    assert_eq!(decode(&stats_reply(65536)), Some(RequestData::Stats(0)));
    assert_eq!(decode(&stats_reply(65537 + 49)), Some(RequestData::Stats(50)));
    assert_eq!(decode(&stats_reply(u32::MAX)), Some(RequestData::Stats(65535)));
}

#[test]
fn decoding_a_session() {
    assert_eq!(decode(&session_reply(42, true)), Some(RequestData::Session(42, "write", true)));
}

#[test]
fn nothing_decodes_from_a_failure() {
    assert_eq!(decode(&FetchReply::Failed), None);
    assert_eq!(decode(&unauthorized()), None);
    let refused_with_data = FetchReply::Stats(StatsResponse {
        ok: false,
        data: Some(StatsData { sessions: 50, total: 1 }),
        error: Some("unauthorized"),
    });
    assert_eq!(decode(&refused_with_data), None);
    let hollow = FetchReply::Stats(StatsResponse { ok: true, data: None, error: None });
    assert_eq!(decode(&hollow), None);
    let refused = FetchReply::Session(SessionResponse {
        ok: false,
        data: Some(SessionData { elapsed: 1, goal: "x", paused: false }),
        error: None,
    });
    assert_eq!(decode(&refused), None);
    let hollow = FetchReply::Session(SessionResponse { ok: true, data: None, error: None });
    assert_eq!(decode(&hollow), None);
}

#[test]
fn successful_fetch_publishes_one_event() {
    let mut poller = PollScheduler::new();
    assert_eq!(
        fetch_data(&mut poller, &stats_reply(50)),
        Some(Events::DataUpdate(RequestData::Stats(50)))
    );
    assert_eq!(poller.state, PollState::Waiting);
    assert_eq!(poller.waited, 0);
}

#[test]
fn refused_fetch_publishes_nothing_and_waits() {
    let mut poller = PollScheduler::new();
    assert_eq!(fetch_data(&mut poller, &unauthorized()), None);
    assert_eq!(poller.state, PollState::Waiting);
    let mut poller = PollScheduler::new();
    assert_eq!(fetch_data(&mut poller, &FetchReply::Failed), None);
    assert_eq!(poller.state, PollState::Waiting);
}

#[test]
fn result_of_the_other_kind_is_not_published() {
    let mut poller = PollScheduler::new();
    assert_eq!(fetch_data(&mut poller, &session_reply(10, false)), None);
    assert_eq!(poller.state, PollState::Waiting);
    poller.signal();
    poller.set_request(RequestType::Session, 1);
    assert_eq!(fetch_data(&mut poller, &stats_reply(50)), None);
    poller.signal();
    assert_eq!(
        fetch_data(&mut poller, &session_reply(10, false)),
        Some(Events::DataUpdate(RequestData::Session(10, "write", false)))
    );
}

#[test]
fn cadence_of_the_home_screen() {
    let mut poller = PollScheduler::new();
    fetch_data(&mut poller, &stats_reply(50));
    for minute in 1..5u8 {
        assert!(!wifi_trigger(&mut poller));
        assert_eq!(poller.state, PollState::Waiting);
        assert_eq!(poller.waited, minute);
    }
    assert!(wifi_trigger(&mut poller));
    assert_eq!(poller.state, PollState::Fetching);
    assert!(!wifi_trigger(&mut poller));
    assert_eq!(poller.waited, 5);
}

#[test]
fn cadence_of_the_session_screen() {
    let mut poller = PollScheduler::new();
    poller.set_request(RequestType::Session, 1);
    fetch_data(&mut poller, &session_reply(10, false));
    assert!(wifi_trigger(&mut poller));
    assert_eq!(poller.state, PollState::Fetching);
}

#[test]
fn shorter_cadence_takes_effect_while_waiting() {
    let mut poller = PollScheduler::new();
    fetch_data(&mut poller, &stats_reply(50));
    assert!(!wifi_trigger(&mut poller));
    assert!(!wifi_trigger(&mut poller));
    poller.set_request(RequestType::Session, 1);
    assert!(wifi_trigger(&mut poller));
}

#[test]
fn cadence_of_zero_and_of_the_longest_wait() {
    let mut poller = PollScheduler::new();
    poller.set_request(RequestType::Stats, 0);
    fetch_data(&mut poller, &FetchReply::Failed);
    assert!(wifi_trigger(&mut poller));
    poller.set_request(RequestType::Stats, 255);
    fetch_data(&mut poller, &FetchReply::Failed);
    for _ in 0..254 {
        assert!(!wifi_trigger(&mut poller));
    }
    assert!(wifi_trigger(&mut poller));
}

#[test]
fn signal_ends_the_wait_at_once() {
    let mut poller = PollScheduler::new();
    fetch_data(&mut poller, &stats_reply(50));
    assert!(poller.signal());
    assert_eq!(poller.state, PollState::Fetching);
    assert_eq!(poller.gate, PollGate::Idle);
}

#[test]
fn signal_during_a_fetch_is_forgotten() {
    let mut poller = PollScheduler::new();
    assert!(!poller.signal());
    assert!(!poller.signal());
    assert_eq!(poller.gate, PollGate::Armed);
    assert_eq!(poller.state, PollState::Fetching);
    fetch_data(&mut poller, &stats_reply(50));
    assert_eq!(poller.state, PollState::Waiting);
    assert_eq!(poller.gate, PollGate::Idle);
    assert!(!wifi_trigger(&mut poller));
    assert_eq!(poller.state, PollState::Waiting);
}

#[test]
fn clock_lookup_runs_once() {
    let mut sync = ClockSync { ran: false };
    assert!(sync.begin());
    assert!(!sync.begin());
    assert!(!sync.begin());
    assert!(sync.ran);
}

#[test]
fn time_stamp_becomes_a_clock_reading() {
    assert_eq!(
        parse_time("2024-06-19T12:34:56-04:00"),
        Some(DateTime {
            year: 2024,
            month: 6,
            day: 19,
            day_of_week: DayOfWeek::Wednesday,
            hour: 12,
            minute: 34,
            second: 56,
        })
    );
    assert_eq!(
        parse_time("2024-09-01T00:00:00Z"),
        Some(DateTime {
            year: 2024,
            month: 9,
            day: 1,
            day_of_week: DayOfWeek::Sunday,
            hour: 0,
            minute: 0,
            second: 0,
        })
    );
    assert_eq!(
        parse_time("1999-12-31T23:59:59.750+09:30").map(|t| (t.year, t.day_of_week, t.second)),
        Some((1999, DayOfWeek::Friday, 59))
    );
}

#[test]
fn what_is_no_time_stamp_gives_no_reading() {
    assert_eq!(parse_time(""), None);
    assert_eq!(parse_time("yesterday"), None);
    assert_eq!(parse_time("2024-06-19"), None);
    assert_eq!(parse_time("2024-06-19T12:34:56"), None);
    assert_eq!(parse_time("2024-13-01T00:00:00Z"), None);
    assert_eq!(parse_time("2024-02-30T00:00:00Z"), None);
}

#[test]
fn year_the_clock_cannot_hold_gives_no_reading() {
    assert!(parse_time("4095-12-31T23:59:59Z").is_some());
    assert_eq!(parse_time("4096-01-01T00:00:00Z"), None);
    assert_eq!(parse_time("9999-01-01T00:00:00Z"), None);
}

#[test]
fn clock_reading_checks_every_field() {
    let good = ClockFields {
        year: 2024,
        month: 6,
        day: 19,
        weekday: 3,
        hour: 12,
        minute: 34,
        second: 56,
    };
    assert_eq!(
        clock_reading(&good),
        Some(DateTime {
            year: 2024,
            month: 6,
            day: 19,
            day_of_week: DayOfWeek::Wednesday,
            hour: 12,
            minute: 34,
            second: 56,
        })
    );
    assert_eq!(clock_reading(&ClockFields { year: -1, ..good }), None);
    assert_eq!(clock_reading(&ClockFields { year: 4096, ..good }), None);
    assert_eq!(clock_reading(&ClockFields { month: 0, ..good }), None);
    assert_eq!(clock_reading(&ClockFields { month: 13, ..good }), None);
    assert_eq!(clock_reading(&ClockFields { day: 0, ..good }), None);
    assert_eq!(clock_reading(&ClockFields { day: 32, ..good }), None);
    assert_eq!(clock_reading(&ClockFields { weekday: 7, ..good }), None);
    assert_eq!(clock_reading(&ClockFields { hour: 24, ..good }), None);
    assert_eq!(clock_reading(&ClockFields { minute: 60, ..good }), None);
    assert_eq!(clock_reading(&ClockFields { second: 60, ..good }), None);
    assert_eq!(clock_reading(&ClockFields { month: 256 + 6, ..good }), None);
    assert!(clock_reading(&ClockFields { year: 0, ..good }).is_some());
    assert!(clock_reading(&ClockFields { year: 4095, ..good }).is_some());
    let days = [
        DayOfWeek::Sunday,
        DayOfWeek::Monday,
        DayOfWeek::Tuesday,
        DayOfWeek::Wednesday,
        DayOfWeek::Thursday,
        DayOfWeek::Friday,
        DayOfWeek::Saturday,
    ];
    for (number, day) in days.iter().enumerate() {
        let reading = clock_reading(&ClockFields { weekday: number as u32, ..good }).unwrap();
        assert_eq!(reading.day_of_week, *day);
    }
}

#[test]
fn answer_of_the_time_lookup() {
    let body = TimeData { datetime: "2024-06-19T12:34:56-04:00" };
    assert_eq!(
        configure_rtc(Some(&body)),
        Some(Events::RtcUpdate(DateTime {
            year: 2024,
            month: 6,
            day: 19,
            day_of_week: DayOfWeek::Wednesday,
            hour: 12,
            minute: 34,
            second: 56,
        }))
    );
    assert_eq!(configure_rtc(None), None);
    assert_eq!(configure_rtc(Some(&TimeData { datetime: "not a time" })), None);
}
