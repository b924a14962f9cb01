//! The campaign whose progress the home screen reports: its boundary dates,
//! the ticket goal, and the tickets that do not count towards it.

use vstd::prelude::*;
use crate::calendar::{day_distance, days_between, DateTime, DayOfWeek};

verus! {

/// Tickets to collect over the campaign.
pub const TICKET_GOAL: u16 = 160;

/// Tickets held before the campaign started; they do not count.
pub const TICKET_OFFSET: u16 = 14;

/// Fixed parameters of a campaign.
#[derive(Clone, Copy, Debug, PartialEq, Eq)]
pub struct Campaign {
    pub start: DateTime,
    pub end: DateTime,
    pub goal: u16,
    pub offset: u16,
}

/// Tickets that count towards the goal: the count less the offset, and zero
/// while the count has not reached the offset.
pub open spec fn net_tickets(count: int, offset: int) -> int {
    if count >= offset {
        count - offset
    } else {
        0
    }
}

impl Campaign {
    /// Days from the first to the last day of the campaign.
    pub open spec fn total_days(&self) -> int {
        day_distance(self.end, self.start)
    }

    /// Days between `now` and the first day of the campaign.
    pub open spec fn days_elapsed(&self, now: DateTime) -> int {
        day_distance(now, self.start)
    }

    /// Days between `now` and the last day of the campaign.
    pub open spec fn days_remaining(&self, now: DateTime) -> int {
        day_distance(self.end, now)
    }

    /// A campaign has a goal to reach and lasts at least two days, so that
    /// every pace it is measured against is a proper ratio.
    pub open spec fn wf(&self) -> bool {
        self.goal > 0 && self.total_days() >= 2
    }

    /// Makes a campaign, or nothing when the goal is zero or the dates are
    /// less than two days apart.
    pub fn new(start: DateTime, end: DateTime, goal: u16, offset: u16) -> (campaign: Option<
        Campaign,
    >)
        ensures
            campaign is Some <==> goal > 0 && day_distance(end, start) >= 2,
            campaign is Some ==> campaign->Some_0 == (Campaign { start, end, goal, offset }),
            campaign is Some ==> campaign->Some_0.wf(),
    {
        if goal > 0 && days_between(&end, &start) >= 2 {
            Some(Campaign { start, end, goal, offset })
        } else {
            None
        }
    }

    /// The campaign the device ships with: 18 June 2024 to the day after
    /// 30 September 2024, written as day 31 of that month.
    pub fn arcade() -> (campaign: Campaign)
        ensures
            campaign.wf(),
            campaign.goal == TICKET_GOAL,
            campaign.offset == TICKET_OFFSET,
            campaign.total_days() == 105,
            campaign.start == (DateTime {
                year: 2024,
                month: 6,
                day: 18,
                day_of_week: DayOfWeek::Tuesday,
                hour: 0,
                minute: 0,
                second: 0,
            }),
            campaign.end == (DateTime {
                year: 2024,
                month: 9,
                day: 31,
                day_of_week: DayOfWeek::Saturday,
                hour: 23,
                minute: 59,
                second: 59,
            }),
    {
        let start = DateTime {
            year: 2024,
            month: 6,
            day: 18,
            day_of_week: DayOfWeek::Tuesday,
            hour: 0,
            minute: 0,
            second: 0,
        };
        let end = DateTime {
            year: 2024,
            month: 9,
            day: 31,
            day_of_week: DayOfWeek::Saturday,
            hour: 23,
            minute: 59,
            second: 59,
        };
        proof {
            reveal_with_fuel(crate::calendar::days_before_month, 10);
        }
        Campaign { start, end, goal: TICKET_GOAL, offset: TICKET_OFFSET }
    }

    /// Tickets of `count` that count towards the goal.
    pub fn net(&self, count: u16) -> (net: u16)
        ensures
            net == net_tickets(count as int, self.offset as int),
    {
        if count >= self.offset {
            count - self.offset
        } else {
            0
        }
    }
}

} // verus!
