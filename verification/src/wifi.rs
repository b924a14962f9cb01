//! The poller: what it asks for, what comes back, when the next cycle starts,
//! and the one-time lookup of the wall-clock time.

use vstd::prelude::*;
use crate::calendar::{DateTime, DayOfWeek};
use crate::home::HOME_INTERVAL;
use crate::util::Events;

verus! {

/// Reply envelope of the session endpoint.
#[derive(Debug, Clone, PartialEq)]
pub struct SessionResponse {
    pub ok: bool,
    pub data: Option<SessionData>,
    pub error: Option<&'static str>,
}

/// Payload of the session endpoint.
#[derive(Debug, Clone, PartialEq)]
pub struct SessionData {
    pub elapsed: u8,
    pub goal: &'static str,
    pub paused: bool,
}

/// Reply envelope of the statistics endpoint.
#[derive(Debug, Clone, PartialEq)]
pub struct StatsResponse {
    pub ok: bool,
    pub data: Option<StatsData>,
    pub error: Option<&'static str>,
}

/// Payload of the statistics endpoint.
#[derive(Debug, Clone, PartialEq)]
pub struct StatsData {
    pub sessions: u32,
    pub total: u32,
}

/// Payload of the time endpoint.
#[derive(Debug, Clone, PartialEq)]
pub struct TimeData {
    pub datetime: &'static str,
}

/// Which remote resource the poller fetches.
#[derive(Clone, Copy, Debug, PartialEq, Eq, Structural)]
pub enum RequestType {
    Stats,
    Session,
}

/// A decoded fetch result.
#[derive(Debug, Clone, Copy, PartialEq)]
pub enum RequestData {
    /// Ticket count.
    Stats(u16),
    /// Elapsed minutes, goal label, paused.
    Session(u8, &'static str, bool),
    /// Nothing was fetched.
    Empty,
}

/// What one fetch brought back.
#[derive(Debug, Clone, PartialEq)]
pub enum FetchReply {
    /// The request failed, or the reply could not be decoded.
    Failed,
    Stats(StatsResponse),
    Session(SessionResponse),
}

/// Where the poller stands.
#[derive(Clone, Copy, Debug, PartialEq, Eq, Structural)]
pub enum PollState {
    /// A fetch is under way.
    Fetching,
    /// Parked until the cadence runs out or an early poll is asked for.
    Waiting,
}

/// The signal that asks for a poll ahead of time. Signals do not add up: the
/// request is pending or it is not.
#[derive(Clone, Copy, Debug, PartialEq, Eq, Structural)]
pub enum PollGate {
    Idle,
    Armed,
}

/// The poller's state.
#[derive(Clone, Copy, Debug, PartialEq, Eq, Structural)]
pub struct PollScheduler {
    pub state: PollState,
    /// The resource the open screen wants.
    pub kind: RequestType,
    /// Minutes between two polls.
    pub interval: u8,
    /// Minutes spent waiting since the last fetch.
    pub waited: u8,
    pub gate: PollGate,
}

/// The fields of a parsed time stamp, as the parser reports them: the
/// calendar date and time of day in the stamp's own offset, and the day of
/// the week counted from Sunday.
#[derive(Clone, Copy, Debug, PartialEq, Eq)]
pub struct ClockFields {
    pub year: i32,
    pub month: u32,
    pub day: u32,
    pub weekday: u32,
    pub hour: u32,
    pub minute: u32,
    pub second: u32,
}

/// Guard of the one-time clock lookup.
#[derive(Clone, Copy, Debug, PartialEq, Eq, Structural)]
pub struct ClockSync {
    /// Set once the lookup has been started.
    pub ran: bool,
}

/// What `chrono` makes of a text as an RFC 3339 time stamp: its fields, or
/// nothing where the text is no such stamp.
pub uninterp spec fn rfc3339_fields(text: Seq<char>) -> Option<ClockFields>;

/// The kind of resource a result belongs to.
pub open spec fn kind_of(data: RequestData) -> Option<RequestType> {
    match data {
        RequestData::Stats(_) => Some(RequestType::Stats),
        RequestData::Session(_, _, _) => Some(RequestType::Session),
        RequestData::Empty => None,
    }
}

/// The result a reply decodes to. A failed fetch, an envelope that is not
/// `ok` and an envelope without data decode to nothing. A ticket count keeps
/// its low sixteen bits.
pub open spec fn decoded(reply: FetchReply) -> Option<RequestData> {
    match reply {
        FetchReply::Failed => None,
        FetchReply::Stats(body) => match body.data {
            Some(data) if body.ok => Some(RequestData::Stats((data.sessions % 65536) as u16)),
            _ => None,
        },
        FetchReply::Session(body) => match body.data {
            Some(data) if body.ok => Some(
                RequestData::Session(data.elapsed, data.goal, data.paused),
            ),
            _ => None,
        },
    }
}

/// The address of a resource, without the user's id.
pub open spec fn endpoint_text(kind: RequestType) -> Seq<char> {
    match kind {
        RequestType::Stats => "http://hackhour.hackclub.com/api/stats/"@,
        RequestType::Session => "http://hackhour.hackclub.com/api/session/"@,
    }
}

/// The day of the week for its number counted from Sunday.
pub open spec fn weekday_of(number: int) -> Option<DayOfWeek> {
    if number == 0 {
        Some(DayOfWeek::Sunday)
    } else if number == 1 {
        Some(DayOfWeek::Monday)
    } else if number == 2 {
        Some(DayOfWeek::Tuesday)
    } else if number == 3 {
        Some(DayOfWeek::Wednesday)
    } else if number == 4 {
        Some(DayOfWeek::Thursday)
    } else if number == 5 {
        Some(DayOfWeek::Friday)
    } else if number == 6 {
        Some(DayOfWeek::Saturday)
    } else {
        None
    }
}

/// Whether the fields are those of a calendar date and a time of day: a
/// month from 1 to 12, a day from 1 to 31, a day of the week, and a time
/// within the day.
pub open spec fn within_calendar(fields: ClockFields) -> bool {
    &&& 1 <= fields.month <= 12
    &&& 1 <= fields.day <= 31
    &&& fields.weekday <= 6
    &&& fields.hour <= 23
    &&& fields.minute <= 59
    &&& fields.second <= 59
}

/// Whether the real-time clock can hold these fields: a calendar date and
/// time of day in a year up to 4095.
pub open spec fn clock_accepts(fields: ClockFields) -> bool {
    0 <= fields.year <= 4095 && within_calendar(fields)
}

/// The clock reading for parsed fields, where the clock can hold them.
pub open spec fn reading_of(fields: ClockFields) -> Option<DateTime> {
    if clock_accepts(fields) {
        Some(
            DateTime {
                year: fields.year as u16,
                month: fields.month as u8,
                day: fields.day as u8,
                day_of_week: weekday_of(fields.weekday as int)->Some_0,
                hour: fields.hour as u8,
                minute: fields.minute as u8,
                second: fields.second as u8,
            },
        )
    } else {
        None
    }
}

/// The clock reading a text stands for, if it is a time stamp the clock can
/// hold.
pub open spec fn reading_of_text(text: Seq<char>) -> Option<DateTime> {
    match rfc3339_fields(text) {
        Some(fields) => reading_of(fields),
        None => None,
    }
}

impl PollScheduler {
    /// While the poller waits, no request for an early poll is pending.
    pub open spec fn wf(&self) -> bool {
        self.state == PollState::Waiting ==> self.gate == PollGate::Idle
    }

    /// The poller after an early poll was asked for: a waiting poller starts a
    /// fetch, a fetching one notes the signal.
    pub open spec fn signalled(&self) -> PollScheduler {
        match self.state {
            PollState::Waiting => PollScheduler {
                state: PollState::Fetching,
                gate: PollGate::Idle,
                ..*self
            },
            PollState::Fetching => PollScheduler { gate: PollGate::Armed, ..*self },
        }
    }

    /// The poller after another minute: a waiting poller starts a fetch once
    /// it has waited as long as the cadence says.
    pub open spec fn ticked(&self) -> PollScheduler {
        match self.state {
            PollState::Waiting => {
                let waited = if self.waited < 255 {
                    (self.waited + 1) as u8
                } else {
                    self.waited
                };
                PollScheduler {
                    state: if waited >= self.interval {
                        PollState::Fetching
                    } else {
                        PollState::Waiting
                    },
                    waited,
                    ..*self
                }
            },
            PollState::Fetching => *self,
        }
    }

    /// The poller after a fetch came back, whatever it brought: it waits, the
    /// count of minutes starts over, and a signal that came in during the
    /// fetch is forgotten.
    pub open spec fn completed(&self) -> PollScheduler {
        PollScheduler { state: PollState::Waiting, waited: 0, gate: PollGate::Idle, ..*self }
    }

    /// What a reply makes the poller publish: the decoded result, as long as
    /// it is of the kind the open screen wants.
    pub open spec fn published(&self, reply: FetchReply) -> Option<Events> {
        match decoded(reply) {
            Some(data) if kind_of(data) == Some(self.kind) => Some(Events::DataUpdate(data)),
            _ => None,
        }
    }

    /// A poller about to make its first fetch, of ticket counts.
    pub fn new() -> (poller: PollScheduler)
        ensures
            poller == (PollScheduler {
                state: PollState::Fetching,
                kind: RequestType::Stats,
                interval: HOME_INTERVAL,
                waited: 0,
                gate: PollGate::Idle,
            }),
            poller.wf(),
    {
        PollScheduler {
            state: PollState::Fetching,
            kind: RequestType::Stats,
            interval: HOME_INTERVAL,
            waited: 0,
            gate: PollGate::Idle,
        }
    }

    /// Sets what to fetch and how often, as the open screen wants it.
    pub fn set_request(&mut self, kind: RequestType, interval: u8)
        ensures
            *final(self) == (PollScheduler { kind, interval, ..*old(self) }),
            old(self).wf() ==> final(self).wf(),
    {
        self.kind = kind;
        self.interval = interval;
    }

    /// Asks for an early poll. Returns whether a fetch starts now.
    pub fn signal(&mut self) -> (start: bool)
        ensures
            *final(self) == old(self).signalled(),
            start == (old(self).state == PollState::Waiting),
            final(self).state == PollState::Fetching,
            old(self).wf() ==> final(self).wf(),
    {
        match self.state {
            PollState::Waiting => {
                self.state = PollState::Fetching;
                self.gate = PollGate::Idle;
                true
            },
            PollState::Fetching => {
                self.gate = PollGate::Armed;
                false
            },
        }
    }

    /// The address to fetch from, for a user's id.
    pub fn request_url(&self, user: &str) -> (url: String)
        ensures
            url@ == endpoint_text(self.kind) + user@,
    {
        let mut url = match self.kind {
            RequestType::Stats => String::from_str("http://hackhour.hackclub.com/api/stats/"),
            RequestType::Session => String::from_str("http://hackhour.hackclub.com/api/session/"),
        };
        url.append(user);
        url
    }
}

impl ClockSync {
    /// Starts the lookup, once: the first call says yes, every later one no.
    pub fn begin(&mut self) -> (go: bool)
        ensures
            go == !old(self).ran,
            final(self).ran,
    {
        let go = !self.ran;
        self.ran = true;
        go
    }
}

/// The value of the authorization header for an access token.
pub fn authorization(token: &str) -> (header: String)
    ensures
        header@ == "Bearer "@ + token@,
{
    let mut header = String::from_str("Bearer ");
    header.append(token);
    header
}

/// Decodes a reply into the result it carries, if any.
pub fn decode(reply: &FetchReply) -> (data: Option<RequestData>)
    ensures
        data == decoded(*reply),
{
    match reply {
        FetchReply::Failed => None,
        FetchReply::Stats(body) => {
            if !body.ok {
                return None;
            }
            match &body.data {
                Some(data) => Some(RequestData::Stats((data.sessions % 65536) as u16)),
                None => None,
            }
        },
        FetchReply::Session(body) => {
            if !body.ok {
                return None;
            }
            match &body.data {
                Some(data) => Some(RequestData::Session(data.elapsed, data.goal, data.paused)),
                None => None,
            }
        },
    }
}

/// Ends a poll cycle with what the fetch brought back. The poller waits from
/// here on, whatever came back. A reply that decodes to a result of the kind
/// the open screen wants is published as one event; a failed fetch, a reply
/// that is not `ok` and a result of the other kind publish nothing.
pub fn fetch_data(poller: &mut PollScheduler, reply: &FetchReply) -> (event: Option<Events>)
    ensures
        *final(poller) == old(poller).completed(),
        final(poller).wf(),
        event == old(poller).published(*reply),
{
    poller.state = PollState::Waiting;
    poller.waited = 0;
    poller.gate = PollGate::Idle;
    match decode(reply) {
        Some(RequestData::Stats(tickets)) => match poller.kind {
            RequestType::Stats => Some(Events::DataUpdate(RequestData::Stats(tickets))),
            RequestType::Session => None,
        },
        Some(RequestData::Session(elapsed, goal, paused)) => match poller.kind {
            RequestType::Session => Some(
                Events::DataUpdate(RequestData::Session(elapsed, goal, paused)),
            ),
            RequestType::Stats => None,
        },
        _ => None,
    }
}

/// Counts one minute of waiting. Returns whether the cadence has run out, so
/// that a fetch starts now.
pub fn wifi_trigger(poller: &mut PollScheduler) -> (start: bool)
    ensures
        *final(poller) == old(poller).ticked(),
        start == (old(poller).state == PollState::Waiting && final(poller).state
            == PollState::Fetching),
        old(poller).wf() ==> final(poller).wf(),
{
    match poller.state {
        PollState::Fetching => false,
        PollState::Waiting => {
            if poller.waited < 255 {
                poller.waited = poller.waited + 1;
            }
            if poller.waited >= poller.interval {
                poller.state = PollState::Fetching;
                true
            } else {
                false
            }
        },
    }
}

/// Calls `chrono::DateTime::parse_from_rfc3339` and reads the fields of the
/// result with chrono's `year`, `month`, `day`, `weekday` (as
/// `num_days_from_sunday`), `hour`, `minute` and `second`. Claims that the
/// outcome depends on the text alone, and that the fields of a parsed stamp
/// lie in the ranges chrono documents for them: the month from 1 to 12, the
/// day from 1 to 31, the weekday up to 6, the hour up to 23, minute and
/// second up to 59.
#[verifier::external_body]
fn parse_rfc3339(text: &str) -> (fields: Option<ClockFields>)
    ensures
        fields == rfc3339_fields(text@),
        fields matches Some(f) ==> within_calendar(f),
{
    match chrono::DateTime::parse_from_rfc3339(text) {
        Ok(stamp) => Some(
            ClockFields {
                year: chrono::Datelike::year(&stamp),
                month: chrono::Datelike::month(&stamp),
                day: chrono::Datelike::day(&stamp),
                weekday: chrono::Datelike::weekday(&stamp).num_days_from_sunday(),
                hour: chrono::Timelike::hour(&stamp),
                minute: chrono::Timelike::minute(&stamp),
                second: chrono::Timelike::second(&stamp),
            },
        ),
        Err(_) => None,
    }
}

/// Turns parsed fields into a clock reading, or nothing where the clock
/// cannot hold them.
pub fn clock_reading(fields: &ClockFields) -> (reading: Option<DateTime>)
    ensures
        reading == reading_of(*fields),
        reading is Some <==> clock_accepts(*fields),
{
    if fields.year < 0 || fields.year > 4095 || fields.month < 1 || fields.month > 12
        || fields.day < 1 || fields.day > 31 || fields.hour > 23 || fields.minute > 59
        || fields.second > 59 {
        return None;
    }
    let day_of_week = match fields.weekday {
        0 => DayOfWeek::Sunday,
        1 => DayOfWeek::Monday,
        2 => DayOfWeek::Tuesday,
        3 => DayOfWeek::Wednesday,
        4 => DayOfWeek::Thursday,
        5 => DayOfWeek::Friday,
        6 => DayOfWeek::Saturday,
        _ => {
            return None;
        },
    };
    Some(
        DateTime {
            year: fields.year as u16,
            month: fields.month as u8,
            day: fields.day as u8,
            day_of_week,
            hour: fields.hour as u8,
            minute: fields.minute as u8,
            second: fields.second as u8,
        },
    )
}

/// Reads a time stamp in RFC 3339 form as a clock reading. There is a
/// reading exactly when the text is such a stamp and its year is one the
/// clock can hold.
pub fn parse_time(text: &str) -> (reading: Option<DateTime>)
    ensures
        reading == reading_of_text(text@),
        reading is Some <==> (rfc3339_fields(text@) matches Some(f) && 0 <= f.year <= 4095),
{
    match parse_rfc3339(text) {
        Some(fields) => clock_reading(&fields),
        None => None,
    }
}

/// Turns the answer of the time lookup into the event that seeds the clock.
/// A lookup that failed, and an answer that is no time stamp the clock can
/// hold, yield nothing, and the clock stays unset.
pub fn configure_rtc(body: Option<&TimeData>) -> (event: Option<Events>)
    ensures
        event == (match body {
            Some(data) => match reading_of_text(data.datetime@) {
                Some(reading) => Some(Events::RtcUpdate(reading)),
                None => None,
            },
            None => None,
        }),
{
    match body {
        Some(data) => match parse_time(data.datetime) {
            Some(reading) => Some(Events::RtcUpdate(reading)),
            None => None,
        },
        None => None,
    }
}

/// A signal that arrives while a fetch is under way does not start another
/// one: once the fetch is over the poller waits, exactly as if the signal had
/// never come.
pub proof fn lemma_stale_signal_is_dropped(poller: PollScheduler)
    requires
        poller.state == PollState::Fetching,
    ensures
        poller.signalled().state == PollState::Fetching,
        poller.signalled().completed() == poller.completed(),
        poller.signalled().completed().state == PollState::Waiting,
{
}

/// A waiting poller starts its next fetch as soon as an early poll is asked for,
/// and no later than when the cadence has run out.
pub proof fn lemma_wait_ends(poller: PollScheduler)
    requires
        poller.state == PollState::Waiting,
    ensures
        poller.signalled().state == PollState::Fetching,
        poller.waited + 1 >= poller.interval ==> poller.ticked().state == PollState::Fetching,
        poller.waited + 1 < poller.interval ==> poller.ticked().state == PollState::Waiting
            && poller.ticked().waited == poller.waited + 1,
{
}

} // verus!
