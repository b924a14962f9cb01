//! The home screen: progress towards the ticket goal, pace statistics, and the
//! eased animation of the progress bar.

use vstd::prelude::*;
use vstd::arithmetic::div_mod::lemma_div_multiples_vanish_quotient;
use crate::calendar::{days_between, DateTime};
use crate::campaign::{net_tickets, Campaign};
use crate::text::{
    decimal,
    format_tenths,
    push_decimal,
    push_signed_decimal,
    round_half_away,
    round_ratio,
    round_share,
    signed_decimal,
    tenths_text,
};
use crate::util::Button;
use crate::wifi::RequestData;

verus! {

/// Minutes between two polls while the home screen is shown.
pub const HOME_INTERVAL: u8 = 5;

/// Frames in one play of the bar animation.
pub const ANIMATION_STEPS: usize = 30;

/// Milliseconds each frame stays on screen.
pub const STEP_MILLIS: u64 = 33;

/// Width of the progress bar in pixels.
pub const BAR_WIDTH: u32 = 120;

/// The easing multiplier that stands for 1: multipliers are fixed-point
/// numbers in units of 1/65536.
pub const EASE_ONE: u32 = 65536;

/// The two sub-views of the home screen.
#[derive(Clone, Copy, Debug, PartialEq, Eq, Structural)]
pub enum SubView {
    Progress,
    Stats,
}

/// State the home screen keeps between events.
#[derive(Clone, Copy, Debug, PartialEq, Eq, Structural)]
pub struct HomeScreen {
    /// The sub-view on display.
    pub view: SubView,
    /// Whether the bar animation has played since the screen was opened.
    pub drawn: bool,
}

/// Numbers behind the progress view.
#[derive(Clone, Copy, Debug, PartialEq, Eq, Structural)]
pub struct ProgressReport {
    /// Tickets counted towards the goal.
    pub tickets: u16,
    /// Tickets counted towards the goal at the previous update; the bar
    /// starts there.
    pub previous: u16,
    /// The ticket goal.
    pub goal: u16,
    /// Days of the campaign used up, today included.
    pub pace_days: u32,
    /// Days the ideal pace is spread over.
    pub pace_span: u32,
    /// Share of the goal reached, in percent.
    pub complete_percent: u64,
    /// Share of the goal an even pace would have reached, in percent.
    pub ideal_percent: u64,
    /// Tickets an even pace would have collected.
    pub ideal_tickets: u64,
    /// Share of the goal still open, in percent.
    pub left_percent: u64,
    /// Tickets still to collect.
    pub left_tickets: u32,
    /// Whether the ideal-pace marker is part of this play of the animation.
    pub overlay: bool,
}

/// Numbers behind the statistics view, rates in tenths.
#[derive(Clone, Copy, Debug, PartialEq, Eq)]
pub struct StatsReport {
    /// Tickets earned per day so far.
    pub average: i32,
    /// Tickets per day that reach the goal at an even pace.
    pub ideal_daily: i32,
    /// Days left after today.
    pub days_left: i32,
    /// Tickets per day needed from now on; nothing on the campaign's last
    /// day, when no day is left to spread them over.
    pub on_track: Option<i32>,
}

/// The ideal-pace marker within one frame.
#[derive(Clone, Copy, Debug, PartialEq, Eq, Structural)]
pub enum Marker {
    /// No marker in this frame.
    Hidden,
    /// Marker of this width, painted before the bar: it shows where it
    /// reaches past the bar.
    Under(u32),
    /// Marker of this width, painted over the bar.
    Over(u32),
}

/// One frame of the bar animation.
#[derive(Clone, Copy, Debug, PartialEq, Eq, Structural)]
pub struct Frame {
    /// Width of the progress bar.
    pub progress: u32,
    /// The ideal-pace marker.
    pub marker: Marker,
}

/// What an update of the home screen puts on display.
#[derive(Clone, Copy, Debug, PartialEq, Eq)]
pub enum HomeUpdate {
    /// The data was not meant for this screen; nothing changes.
    Ignored,
    Progress(ProgressReport),
    Stats(StatsReport),
}

/// The larger of `value` and zero.
pub open spec fn at_least_zero(value: int) -> int {
    if value < 0 {
        0
    } else {
        value
    }
}

/// The progress report for a ticket count.
///
/// With `net` the tickets that count, the goal is `100 * net / goal` percent
/// complete; an even pace would be at `(days elapsed + 1) / (total days - 1)`
/// of the goal; and what is left is `1 - net / goal`, never below zero. Every
/// quotient is rounded to the nearest integer.
pub open spec fn progress_report(
    ticket_count: u16,
    old_count: u16,
    now: DateTime,
    campaign: Campaign,
    first_play: bool,
) -> ProgressReport {
    let goal = campaign.goal as int;
    let net = net_tickets(ticket_count as int, campaign.offset as int);
    let pace_days = campaign.days_elapsed(now) + 1;
    let pace_span = campaign.total_days() - 1;
    ProgressReport {
        tickets: net as u16,
        previous: net_tickets(old_count as int, campaign.offset as int) as u16,
        goal: campaign.goal,
        pace_days: pace_days as u32,
        pace_span: pace_span as u32,
        complete_percent: round_half_away(100 * net, goal) as u64,
        ideal_percent: round_half_away(100 * pace_days, pace_span) as u64,
        ideal_tickets: round_half_away(goal * pace_days, pace_span) as u64,
        left_percent: round_half_away(100 * at_least_zero(goal - net), goal) as u64,
        left_tickets: at_least_zero(goal - ticket_count + campaign.offset) as u32,
        overlay: first_play,
    }
}

/// The statistics report for a ticket count: average tickets per day so far,
/// tickets per day of an even pace, days left after today, and tickets per day
/// needed to finish on time.
pub open spec fn stats_report(ticket_count: u16, now: DateTime, campaign: Campaign) -> StatsReport {
    let goal = campaign.goal as int;
    let net = net_tickets(ticket_count as int, campaign.offset as int);
    let remaining = campaign.days_remaining(now);
    StatsReport {
        average: round_half_away(10 * net, campaign.days_elapsed(now) + 1) as i32,
        ideal_daily: round_half_away(10 * goal, campaign.total_days()) as i32,
        days_left: (remaining - 1) as i32,
        on_track: if remaining > 0 {
            Some(
                round_half_away(10 * (goal - ticket_count + campaign.offset), remaining) as i32,
            )
        } else {
            None
        },
    }
}

/// Pixels of the bar that the fraction `num / den` fills: the fraction of the
/// full width, cut to whole pixels and kept within the bar.
pub open spec fn bar_width(num: int, den: int) -> int {
    let width = (BAR_WIDTH * num) / den;
    if width > BAR_WIDTH {
        BAR_WIDTH as int
    } else if width < 0 {
        0
    } else {
        width
    }
}

/// An easing multiplier kept within 0..=1.
pub open spec fn ease_clamped(ease: u32) -> int {
    if ease > EASE_ONE {
        EASE_ONE as int
    } else {
        ease as int
    }
}

/// Width of the bar part-way from `previous` to `current` tickets of `goal`:
/// the fraction on display is `previous + (current - previous) * ease`.
pub open spec fn eased_width(previous: int, current: int, goal: int, ease: u32) -> int {
    bar_width(
        previous * EASE_ONE + (current - previous) * ease_clamped(ease),
        goal * EASE_ONE,
    )
}

/// Width of the ideal-pace marker as it grows with the easing multiplier.
pub open spec fn eased_marker_width(pace_days: int, pace_span: int, ease: u32) -> int {
    bar_width(pace_days * ease_clamped(ease), pace_span * EASE_ONE)
}

impl ProgressReport {
    /// The ratios in a report have positive denominators.
    pub open spec fn wf(&self) -> bool {
        self.goal > 0 && self.pace_span > 0
    }

    /// Whether the ideal pace is at or past the progress made.
    pub open spec fn pace_leads(&self) -> bool {
        self.pace_days * self.goal >= self.tickets * self.pace_span
    }

    /// The frame shown while the easing multiplier is `ease`.
    pub open spec fn frame(&self, ease: u32) -> Frame {
        let width = eased_marker_width(self.pace_days as int, self.pace_span as int, ease) as u32;
        Frame {
            progress: eased_width(
                self.previous as int,
                self.tickets as int,
                self.goal as int,
                ease,
            ) as u32,
            marker: if !self.overlay {
                Marker::Hidden
            } else if self.pace_leads() {
                Marker::Under(width)
            } else {
                Marker::Over(width)
            },
        }
    }

    /// Text of the first line: how much of the goal is reached.
    pub open spec fn complete_line(&self) -> Seq<char> {
        decimal(self.complete_percent as nat) + "% there!"@
    }

    /// Text of the second line: where an even pace would be.
    pub open spec fn ideal_line(&self) -> Seq<char> {
        "Should be "@ + decimal(self.ideal_percent as nat) + "% ("@ + decimal(
            self.ideal_tickets as nat,
        ) + ") done!"@
    }

    /// Text of the third line: how much is left.
    pub open spec fn left_line(&self) -> Seq<char> {
        decimal(self.left_percent as nat) + "% left ("@ + decimal(self.left_tickets as nat)
            + ")!"@
    }

    /// Renders the first line.
    pub fn complete_text(&self) -> (text: String)
        ensures
            text@ == self.complete_line(),
    {
        let mut text = String::new();
        push_decimal(&mut text, self.complete_percent);
        text.append("% there!");
        assert(text@ =~= self.complete_line());
        text
    }

    /// Renders the second line.
    pub fn ideal_text(&self) -> (text: String)
        ensures
            text@ == self.ideal_line(),
    {
        let mut text = String::new();
        text.append("Should be ");
        push_decimal(&mut text, self.ideal_percent);
        text.append("% (");
        push_decimal(&mut text, self.ideal_tickets);
        text.append(") done!");
        assert(text@ =~= self.ideal_line());
        text
    }

    /// Renders the third line.
    pub fn left_text(&self) -> (text: String)
        ensures
            text@ == self.left_line(),
    {
        let mut text = String::new();
        push_decimal(&mut text, self.left_percent);
        text.append("% left (");
        push_decimal(&mut text, self.left_tickets as u64);
        text.append(")!");
        assert(text@ =~= self.left_line());
        text
    }
}

impl StatsReport {
    /// Renders the average rate.
    pub fn average_text(&self) -> (text: String)
        ensures
            text@ == tenths_text(self.average as int),
    {
        format_tenths(self.average as i64)
    }

    /// Renders the rate of an even pace.
    pub fn ideal_daily_text(&self) -> (text: String)
        ensures
            text@ == tenths_text(self.ideal_daily as int),
    {
        format_tenths(self.ideal_daily as i64)
    }

    /// Renders the days left.
    pub fn days_left_text(&self) -> (text: String)
        ensures
            text@ == signed_decimal(self.days_left as int),
    {
        let mut text = String::new();
        push_signed_decimal(&mut text, self.days_left as i64);
        assert(text@ =~= signed_decimal(self.days_left as int));
        text
    }

    /// Renders the rate needed to finish on time, when there is one.
    pub fn on_track_text(&self) -> (text: Option<String>)
        ensures
            text is Some <==> self.on_track is Some,
            text is Some ==> text->Some_0@ == tenths_text(self.on_track->Some_0 as int),
    {
        match self.on_track {
            Some(rate) => Some(format_tenths(rate as i64)),
            None => None,
        }
    }
}

/// Opens the home screen: the animation counts as not yet played, the
/// sub-view stays as it was left. Returns the minutes between two polls.
pub fn init(screen: &mut HomeScreen) -> (interval: u8)
    ensures
        interval == HOME_INTERVAL,
        final(screen).view == old(screen).view,
        !final(screen).drawn,
{
    screen.drawn = false;
    HOME_INTERVAL
}

/// Reacts to a button: Up selects the progress view, Down the statistics
/// view. Returns the sub-view to switch to when the button changed it; the
/// caller then clears the content area, draws the side bar of that view and
/// asks for an immediate poll.
pub fn input(screen: &mut HomeScreen, btn: Button) -> (switched: Option<SubView>)
    ensures
        final(screen).drawn == old(screen).drawn,
        btn == Button::Up ==> final(screen).view == SubView::Progress,
        btn == Button::Down ==> final(screen).view == SubView::Stats,
        btn != Button::Up && btn != Button::Down ==> final(screen).view == old(screen).view,
        switched == (if final(screen).view != old(screen).view {
            Some(final(screen).view)
        } else {
            None
        }),
{
    match btn {
        Button::Up => {
            if screen.view == SubView::Stats {
                screen.view = SubView::Progress;
                Some(SubView::Progress)
            } else {
                None
            }
        },
        Button::Down => {
            if screen.view == SubView::Progress {
                screen.view = SubView::Stats;
                Some(SubView::Stats)
            } else {
                None
            }
        },
        _ => None,
    }
}

/// What [`update`] returns and leaves behind, as a function of what it was
/// given.
pub open spec fn update_result(
    screen: HomeScreen,
    data: RequestData,
    old_count: u16,
    now: DateTime,
    campaign: Campaign,
) -> (HomeScreen, HomeUpdate) {
    match data {
        RequestData::Stats(ticket_count) => match screen.view {
            SubView::Progress => (
                HomeScreen { view: screen.view, drawn: true },
                HomeUpdate::Progress(
                    progress_report(ticket_count, old_count, now, campaign, !screen.drawn),
                ),
            ),
            SubView::Stats => (
                screen,
                HomeUpdate::Stats(stats_report(ticket_count, now, campaign)),
            ),
        },
        _ => (screen, HomeUpdate::Ignored),
    }
}

/// Takes a fetch result. A ticket count is turned into the report of the
/// sub-view on display; anything else is ignored and changes nothing. The
/// first progress report after the screen was opened carries the ideal-pace
/// marker, later ones do not.
pub fn update(
    screen: &mut HomeScreen,
    data: &RequestData,
    old_count: u16,
    now: &DateTime,
    campaign: &Campaign,
) -> (shown: HomeUpdate)
    requires
        campaign.wf(),
    ensures
        (*final(screen), shown) == update_result(*old(screen), *data, old_count, *now, *campaign),
{
    match data {
        RequestData::Stats(ticket_count) => {
            match screen.view {
                SubView::Stats => HomeUpdate::Stats(update_stats(*ticket_count, now, campaign)),
                SubView::Progress => {
                    let report = update_progress(
                        *ticket_count,
                        old_count,
                        now,
                        campaign,
                        !screen.drawn,
                    );
                    screen.drawn = true;
                    HomeUpdate::Progress(report)
                },
            }
        },
        _ => HomeUpdate::Ignored,
    }
}

/// Computes the progress report for a ticket count.
pub fn update_progress(
    ticket_count: u16,
    old_count: u16,
    now: &DateTime,
    campaign: &Campaign,
    first_play: bool,
) -> (report: ProgressReport)
    requires
        campaign.wf(),
    ensures
        report == progress_report(ticket_count, old_count, *now, *campaign, first_play),
        report.wf(),
        report.tickets == net_tickets(ticket_count as int, campaign.offset as int),
        report.previous == net_tickets(old_count as int, campaign.offset as int),
        report.complete_percent == round_half_away(100 * report.tickets, campaign.goal as int),
        report.pace_days == campaign.days_elapsed(*now) + 1,
        report.pace_span == campaign.total_days() - 1,
        report.ideal_percent == round_half_away(
            100 * report.pace_days,
            report.pace_span as int,
        ),
{
    let net: u16 = campaign.net(ticket_count);
    let previous: u16 = campaign.net(old_count);
    let goal: u64 = campaign.goal as u64;
    let pace_days: u32 = days_between(now, &campaign.start) as u32 + 1;
    let pace_span: u32 = days_between(&campaign.end, &campaign.start) as u32 - 1;
    let open: u64 = if net as u64 >= goal {
        0
    } else {
        goal - net as u64
    };
    let left: i32 = campaign.goal as i32 - ticket_count as i32 + campaign.offset as i32;
    assert(goal * (pace_days as u64) <= 0x2000_0000_0000_0000) by (nonlinear_arith)
        requires
            goal <= 65535,
            pace_days <= 23_937_153,
    ;
    ProgressReport {
        tickets: net,
        previous,
        goal: campaign.goal,
        pace_days,
        pace_span,
        complete_percent: round_share(100 * (net as u64), goal),
        ideal_percent: round_share(100 * (pace_days as u64), pace_span as u64),
        ideal_tickets: round_share(goal * (pace_days as u64), pace_span as u64),
        left_percent: round_share(100 * open, goal),
        left_tickets: if left < 0 {
            0
        } else {
            left as u32
        },
        overlay: first_play,
    }
}

/// Computes the statistics report for a ticket count.
pub fn update_stats(ticket_count: u16, now: &DateTime, campaign: &Campaign) -> (report:
    StatsReport)
    requires
        campaign.wf(),
    ensures
        report == stats_report(ticket_count, *now, *campaign),
        report.average == round_half_away(
            10 * net_tickets(ticket_count as int, campaign.offset as int),
            campaign.days_elapsed(*now) + 1,
        ),
        report.ideal_daily == round_half_away(10 * campaign.goal, campaign.total_days()),
        report.days_left == campaign.days_remaining(*now) - 1,
        report.on_track is Some <==> campaign.days_remaining(*now) > 0,
        report.on_track is Some ==> report.on_track->Some_0 == round_half_away(
            10 * (campaign.goal - ticket_count + campaign.offset),
            campaign.days_remaining(*now),
        ),
{
    let net: i64 = campaign.net(ticket_count) as i64;
    let elapsed: i64 = days_between(now, &campaign.start) as i64;
    let total: i64 = days_between(&campaign.end, &campaign.start) as i64;
    let remaining: i32 = days_between(&campaign.end, now);
    let needed: i64 = campaign.goal as i64 - ticket_count as i64 + campaign.offset as i64;
    proof {
        lemma_rate_is_small(10 * net, elapsed + 1);
        lemma_rate_is_small(10 * (campaign.goal as int), total as int);
    }
    let average: i32 = round_ratio(10 * net, elapsed + 1) as i32;
    let ideal_daily: i32 = round_ratio(10 * (campaign.goal as i64), total) as i32;
    let on_track: Option<i32> = if remaining > 0 {
        proof {
            lemma_rate_is_small(10 * needed, remaining as int);
        }
        Some(round_ratio(10 * needed, remaining as i64) as i32)
    } else {
        None
    };
    StatsReport { average, ideal_daily, days_left: remaining - 1, on_track }
}

/// A rounded ratio is no larger in size than its numerator.
pub proof fn lemma_rate_is_small(num: int, den: int)
    requires
        den > 0,
    ensures
        num >= 0 ==> 0 <= round_half_away(num, den) <= num,
        num < 0 ==> num <= round_half_away(num, den) <= 0,
{
    let size = if num >= 0 {
        num
    } else {
        -num
    };
    assert(0 <= (2 * size + den) / (2 * den) <= size) by (nonlinear_arith)
        requires
            size >= 0,
            den > 0,
    ;
}

fn fill_width(num: u64, den: u64) -> (width: u32)
    requires
        den > 0,
        num <= 0x0100_0000_0000_0000,
    ensures
        width == bar_width(num as int, den as int),
        width <= BAR_WIDTH,
{
    assert(BAR_WIDTH * num == 120 * num);
    let width: u64 = (BAR_WIDTH as u64 * num) / den;
    if width > BAR_WIDTH as u64 {
        BAR_WIDTH
    } else {
        width as u32
    }
}

/// Computes the frame of the bar animation for one easing multiplier, given
/// in units of 1/65536 and read as 1 when larger.
pub fn animation_frame(report: &ProgressReport, ease: u32) -> (frame: Frame)
    requires
        report.wf(),
    ensures
        frame == report.frame(ease),
        frame.progress <= BAR_WIDTH,
{
    let one: u64 = EASE_ONE as u64;
    let m: u64 = if ease > EASE_ONE {
        one
    } else {
        ease as u64
    };
    let previous: u64 = report.previous as u64;
    let tickets: u64 = report.tickets as u64;
    let goal: u64 = report.goal as u64;
    assert(previous * (one - m) + tickets * m == previous * one + (tickets - previous) * m
        && previous * (one - m) <= 65535 * 65536 && tickets * m <= 65535 * 65536 && goal * one
        > 0) by (nonlinear_arith)
        requires
            m <= one,
            one == 65536,
            previous <= 65535,
            tickets <= 65535,
            goal > 0,
    ;
    let progress: u32 = fill_width(previous * (one - m) + tickets * m, goal * one);
    let marker = if !report.overlay {
        Marker::Hidden
    } else {
        let days: u64 = report.pace_days as u64;
        let span: u64 = report.pace_span as u64;
        assert(days * m <= 0x0001_0000_0000_0000 && span * one > 0 && span * one
            <= 0x0001_0000_0000_0000 && days * goal <= 0x0001_0000_0000_0000 && tickets * span
            <= 0x0001_0000_0000_0000) by (nonlinear_arith)
            requires
                m <= one,
                one == 65536,
                days <= 0xffff_ffff,
                0 < span <= 0xffff_ffff,
                goal <= 65535,
                tickets <= 65535,
        ;
        let width: u32 = fill_width(days * m, span * one);
        if days * goal >= tickets * span {
            Marker::Under(width)
        } else {
            Marker::Over(width)
        }
    };
    Frame { progress, marker }
}

/// Computes one play of the bar animation: a frame for each multiplier of the
/// easing curve, in order.
pub fn animation_frames(report: &ProgressReport, curve: &Vec<u32>) -> (frames: Vec<Frame>)
    requires
        report.wf(),
    ensures
        frames@.len() == curve@.len(),
        forall|i: int| 0 <= i < curve@.len() ==> frames@[i] == report.frame(curve@[i]),
{
    let mut frames: Vec<Frame> = Vec::new();
    let mut i: usize = 0;
    while i < curve.len()
        invariant
            report.wf(),
            i <= curve@.len(),
            frames@.len() == i,
            forall|k: int| 0 <= k < i ==> frames@[k] == report.frame(curve@[k]),
        decreases curve@.len() - i,
    {
        frames.push(animation_frame(report, curve[i]));
        i = i + 1;
    }
    frames
}

/// An animation between equal counts stands still: whatever the easing
/// multiplier, the bar has the width of that count.
pub proof fn lemma_steady_bar(tickets: u16, goal: u16, ease: u32)
    requires
        goal > 0,
    ensures
        eased_width(tickets as int, tickets as int, goal as int, ease) == bar_width(
            tickets as int,
            goal as int,
        ),
{
    let one = EASE_ONE as int;
    lemma_div_multiples_vanish_quotient(one, BAR_WIDTH * tickets, goal as int);
    assert(BAR_WIDTH * (tickets * one + (tickets - tickets) * ease_clamped(ease)) == one * (
    BAR_WIDTH * tickets)) by (nonlinear_arith);
    assert(goal * one == one * goal) by (nonlinear_arith);
}

/// The bar moves between its end points and nowhere else: with the
/// multiplier at zero it has the width of the previous count, and with the
/// multiplier at one the width of the new count.
pub proof fn lemma_bar_end_points(previous: u16, tickets: u16, goal: u16)
    requires
        goal > 0,
    ensures
        eased_width(previous as int, tickets as int, goal as int, 0) == bar_width(
            previous as int,
            goal as int,
        ),
        eased_width(previous as int, tickets as int, goal as int, EASE_ONE) == bar_width(
            tickets as int,
            goal as int,
        ),
{
    let one = EASE_ONE as int;
    lemma_div_multiples_vanish_quotient(one, BAR_WIDTH * previous, goal as int);
    lemma_div_multiples_vanish_quotient(one, BAR_WIDTH * tickets, goal as int);
    assert(BAR_WIDTH * (previous * one + (tickets - previous) * 0) == one * (BAR_WIDTH
        * previous)) by (nonlinear_arith);
    assert(BAR_WIDTH * (previous * one + (tickets - previous) * one) == one * (BAR_WIDTH
        * tickets)) by (nonlinear_arith);
    assert(goal * one == one * goal) by (nonlinear_arith);
}

} // verus!
