use vstd::prelude::*;

use crate::common::calendar::CalendarDate;
use crate::common::decimal::{dec_at_least, dec_checked_add, dec_le, dec_of, decimal_checked_sum, Dec, MAX_MANTISSA};
use crate::common::ids::EntityId;

verus! {

/// A user's reading totals for one day. Whether the daily goal was met on
/// that day decides whether the streak advances.
#[derive(Clone, Copy, Debug)]
pub struct DailyActivity {
    pub user_id: EntityId,
    pub activity_date: CalendarDate,
    pub minutes: Dec,
    pub pages: i32,
    pub xp_earned: i32,
    pub met_daily_goal: bool,
}

/// The minutes after adding `minutes` to `total`, as `rust_decimal` sums
/// them, or `None` where the sum overflows.
pub open spec fn minutes_after(total: Dec, minutes: Dec) -> Option<Dec> {
    match decimal_checked_sum(total.mantissa as int, total.scale as int, minutes.mantissa as int, minutes.scale as int) {
        Some(p) => Some(dec_of(p)),
        None => None,
    }
}

impl DailyActivity {
    /// Whether a session with these amounts can be added without an
    /// overflow of the minutes, pages or experience totals.
    pub open spec fn can_accumulate(self, minutes: Dec, pages: i32, xp: i32) -> bool {
        &&& minutes_after(self.minutes, minutes) is Some
        &&& i32::MIN <= self.pages + pages <= i32::MAX
        &&& i32::MIN <= self.xp_earned + xp <= i32::MAX
    }

    /// The day's totals after adding a session, and whether that session
    /// newly met the goal.
    pub open spec fn accumulated(self, minutes: Dec, pages: i32, xp: i32, goal_minutes: Dec) -> (DailyActivity, bool) {
        let total = minutes_after(self.minutes, minutes).unwrap();
        let met = dec_le(goal_minutes, total);
        (
            DailyActivity {
                minutes: total,
                pages: (self.pages + pages) as i32,
                xp_earned: (self.xp_earned + xp) as i32,
                met_daily_goal: met,
                ..self
            },
            !self.met_daily_goal && met,
        )
    }

    /// No reading yet on `activity_date`.
    pub fn new(user_id: EntityId, activity_date: CalendarDate) -> (res: DailyActivity)
        ensures
            res.user_id == user_id,
            res.activity_date == activity_date,
            res.minutes.mantissa == 0 && res.minutes.scale == 0,
            res.pages == 0,
            res.xp_earned == 0,
            !res.met_daily_goal,
            res.minutes.wf(),
    {
        DailyActivity {
            user_id,
            activity_date,
            minutes: Dec::zero(),
            pages: 0,
            xp_earned: 0,
            met_daily_goal: false,
        }
    }

    /// Adds a reading session to the day's totals and recomputes whether
    /// the goal is met. Returns true only on the session that crosses the
    /// goal: never when the goal was already met before it.
    pub fn accumulate(&mut self, minutes: Dec, pages: i32, xp: i32, goal_minutes: Dec) -> (res: bool)
        requires
            old(self).minutes.wf(),
            minutes.wf(),
            goal_minutes.wf(),
            old(self).can_accumulate(minutes, pages, xp),
        ensures
            (*final(self), res) == old(self).accumulated(minutes, pages, xp, goal_minutes),
            final(self).minutes.wf(),
            res ==> !old(self).met_daily_goal && final(self).met_daily_goal,
            old(self).met_daily_goal ==> !res,
            old(self).minutes.scale == minutes.scale
                && -MAX_MANTISSA <= old(self).minutes.mantissa + minutes.mantissa <= MAX_MANTISSA
                ==> final(self).minutes == (Dec { mantissa: (old(self).minutes.mantissa + minutes.mantissa) as i128, scale: minutes.scale }),
    {
        let was_met = self.met_daily_goal;
        let total = dec_checked_add(self.minutes, minutes);
        let total = match total {
            Some(t) => t,
            None => {
                proof { assert(false); }
                self.minutes
            },
        };
        self.minutes = total;
        self.pages = self.pages + pages;
        self.xp_earned = self.xp_earned + xp;
        self.met_daily_goal = dec_at_least(self.minutes, goal_minutes);
        !was_met && self.met_daily_goal
    }

    /// Adds a session where the totals can hold it, as `accumulate` does;
    /// returns `None` and changes nothing where a total would overflow.
    pub fn try_accumulate(&mut self, minutes: Dec, pages: i32, xp: i32, goal_minutes: Dec) -> (res: Option<bool>)
        requires
            old(self).minutes.wf(),
            minutes.wf(),
            goal_minutes.wf(),
        ensures
            old(self).can_accumulate(minutes, pages, xp) ==> res == Some(old(self).accumulated(minutes, pages, xp, goal_minutes).1)
                && *final(self) == old(self).accumulated(minutes, pages, xp, goal_minutes).0,
            !old(self).can_accumulate(minutes, pages, xp) ==> res is None && *final(self) == *old(self),
            final(self).minutes.wf(),
            old(self).minutes.scale == minutes.scale
                && -MAX_MANTISSA <= old(self).minutes.mantissa + minutes.mantissa <= MAX_MANTISSA
                && i32::MIN <= old(self).pages + pages <= i32::MAX
                && i32::MIN <= old(self).xp_earned + xp <= i32::MAX
                ==> res is Some && final(self).minutes
                    == (Dec { mantissa: (old(self).minutes.mantissa + minutes.mantissa) as i128, scale: minutes.scale }),
    {
        let sum = dec_checked_add(self.minutes, minutes);
        if sum.is_none() {
            return None;
        }
        let pages_total = self.pages.checked_add(pages);
        let xp_total = self.xp_earned.checked_add(xp);
        if pages_total.is_none() || xp_total.is_none() {
            return None;
        }
        Some(self.accumulate(minutes, pages, xp, goal_minutes))
    }
}

} // verus!
