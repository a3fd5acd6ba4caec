//! Reading streaks: per-day activity totals against a daily goal, and the
//! run of consecutive days on which the goal was met.

pub mod daily_activity;
pub mod record_daily_activity;
pub mod streak;
