use std::cell::{Cell, RefCell};
use std::collections::HashMap;

use reading_features::common::calendar::CalendarDate;
use reading_features::common::decimal::Dec;
use reading_features::streaks::daily_activity::DailyActivity;
use reading_features::streaks::record_daily_activity::{RecordAction, RecordDailyActivity, RecordEvent};
use reading_features::streaks::streak::{Streak, StreakError};
use rust_decimal::Decimal;

#[derive(Default)]
struct MockRepo {
    streak: RefCell<Option<Streak>>,
    activities: RefCell<HashMap<CalendarDate, DailyActivity>>,
    saves_streak: Cell<u32>,
    saves_activity: Cell<u32>,
    freezes_available: Cell<i64>,
    freeze_used: Cell<Option<CalendarDate>>,
}

/// Runs the use case as the application does: performs each action that
/// the library's recording flow asks for against the mock repository.
fn execute(
    uc: &RecordDailyActivity<MockRepo>,
    user: u128,
    date: CalendarDate,
    minutes: Dec,
    pages: i32,
    xp: i32,
) -> Result<(), StreakError> {
    let repo = uc.repo();
    let mut flow = uc.start(user, date, minutes, pages, xp);
    let mut event = RecordEvent::Begin;
    loop {
        let (next, action) = flow.step(event);
        flow = next;
        event = match action {
            RecordAction::LoadActivity(u, d) => RecordEvent::ActivityLoaded(
                repo.activities.borrow().get(&d).copied().unwrap_or_else(|| DailyActivity::new(u, d)),
            ),
            RecordAction::SaveActivity(a) => {
                repo.activities.borrow_mut().insert(a.activity_date, a);
                repo.saves_activity.set(repo.saves_activity.get() + 1);
                RecordEvent::ActivitySaved
            }
            RecordAction::LoadStreak(u) => RecordEvent::StreakLoaded(repo.streak.borrow().unwrap_or_else(|| Streak::new(u))),
            RecordAction::CountFreezes(_) => RecordEvent::FreezesCounted(repo.freezes_available.get()),
            RecordAction::UseFreeze(_, d) => {
                repo.freezes_available.set(repo.freezes_available.get() - 1);
                repo.freeze_used.set(Some(d));
                RecordEvent::FreezeUsed
            }
            RecordAction::SaveStreak(s) => {
                *repo.streak.borrow_mut() = Some(s);
                repo.saves_streak.set(repo.saves_streak.get() + 1);
                RecordEvent::StreakSaved
            }
            RecordAction::Respond(answer) => return answer,
        };
    }
}

fn date(d: u32) -> CalendarDate {
    CalendarDate::from_ymd(2026, 6, d).unwrap()
}

fn uid() -> u128 {
    99
}

fn dec(n: i128) -> Dec {
    Dec::new(n, 0).unwrap()
}

fn use_case() -> RecordDailyActivity<MockRepo> {
    RecordDailyActivity::new(MockRepo::default(), dec(15))
}

#[test]
fn below_goal_saves_activity_but_not_streak() {
    let uc = use_case();
    execute(&uc, uid(), date(1), dec(10), 5, 20).unwrap();
    assert_eq!(uc.repo().saves_activity.get(), 1);
    assert_eq!(uc.repo().saves_streak.get(), 0, "streak must not be touched below goal");
}

#[test]
fn meeting_goal_advances_streak() {
    let uc = use_case();
    execute(&uc, uid(), date(1), dec(15), 10, 30).unwrap();
    assert_eq!(uc.repo().saves_streak.get(), 1);
    let streak = uc.repo().streak.borrow().unwrap();
    assert_eq!(streak.current_length, 1);
}

#[test]
fn meeting_goal_across_two_sessions_advances_streak_once() {
    let uid = uid();
    let uc = use_case();
    execute(&uc, uid, date(1), dec(10), 5, 10).unwrap();
    assert_eq!(uc.repo().saves_streak.get(), 0);
    execute(&uc, uid, date(1), dec(6), 3, 12).unwrap();
    assert_eq!(uc.repo().saves_streak.get(), 1);
    execute(&uc, uid, date(1), dec(5), 2, 10).unwrap();
    assert_eq!(uc.repo().saves_streak.get(), 1, "streak advanced only once per day");
}

#[test]
fn streak_advances_on_consecutive_days() {
    let uid = uid();
    let uc = use_case();
    execute(&uc, uid, date(1), dec(20), 0, 0).unwrap();
    execute(&uc, uid, date(2), dec(20), 0, 0).unwrap();
    execute(&uc, uid, date(3), dec(20), 0, 0).unwrap();
    let streak = uc.repo().streak.borrow().unwrap();
    assert_eq!(streak.current_length, 3);
    assert_eq!(streak.longest_length, 3);
}

#[test]
fn activity_accumulates_across_sessions() {
    let uid = uid();
    let uc = use_case();
    execute(&uc, uid, date(1), dec(8), 10, 15).unwrap();
    execute(&uc, uid, date(1), dec(9), 12, 18).unwrap();
    let a = *uc.repo().activities.borrow().get(&date(1)).unwrap();
    assert_eq!(Decimal::from_i128_with_scale(a.minutes.mantissa, a.minutes.scale), Decimal::from(17));
    assert_eq!(a.pages, 22);
    assert_eq!(a.xp_earned, 33);
    assert!(a.met_daily_goal);
}

// ── further cases ────────────────────────────────────────

#[test]
fn falling_below_and_crossing_again_is_refused_by_the_streak() {
    let uid = uid();
    let uc = use_case();
    execute(&uc, uid, date(1), dec(15), 0, 0).unwrap();
    execute(&uc, uid, date(1), dec(-10), 0, 0).unwrap();
    let err = execute(&uc, uid, date(1), dec(10), 0, 0).unwrap_err();
    assert_eq!(err, StreakError::DayAlreadyProcessed(date(1)));
    assert_eq!(uc.repo().streak.borrow().unwrap().current_length, 1);
}

#[test]
fn record_session_reports_overflow_as_none() {
    let uc = use_case();
    let mut a = DailyActivity::new(uid(), date(1));
    a.pages = i32::MAX;
    assert!(uc.record_session(a, dec(1), 1, 0).is_none());
    assert_eq!(Decimal::from_i128_with_scale(uc.goal_minutes().mantissa, 0), Decimal::from(15));
}

#[test]
fn missed_day_is_covered_by_an_available_freeze() {
    let uid = uid();
    let uc = use_case();
    execute(&uc, uid, date(1), dec(20), 0, 0).unwrap();
    uc.repo().freezes_available.set(1);
    execute(&uc, uid, date(3), dec(20), 0, 0).unwrap();
    assert_eq!(uc.repo().freeze_used.get(), Some(date(2)));
    assert_eq!(uc.repo().freezes_available.get(), 0);
    let streak = uc.repo().streak.borrow().unwrap();
    assert_eq!(streak.current_length, 2);
    assert_eq!(streak.last_extended_on, Some(date(3)));
}

#[test]
fn missed_day_without_a_freeze_spends_nothing() {
    let uid = uid();
    let uc = use_case();
    execute(&uc, uid, date(1), dec(20), 0, 0).unwrap();
    execute(&uc, uid, date(3), dec(20), 0, 0).unwrap();
    assert_eq!(uc.repo().freeze_used.get(), None);
    assert_eq!(uc.repo().streak.borrow().unwrap().last_extended_on, Some(date(3)));
}

#[test]
fn consecutive_days_spend_no_freeze() {
    let uid = uid();
    let uc = use_case();
    execute(&uc, uid, date(1), dec(20), 0, 0).unwrap();
    uc.repo().freezes_available.set(1);
    execute(&uc, uid, date(2), dec(20), 0, 0).unwrap();
    assert_eq!(uc.repo().freeze_used.get(), None);
    assert_eq!(uc.repo().freezes_available.get(), 1);
}

#[test]
fn freeze_decision_uses_the_available_count() {
    let uc = use_case();
    let mut s = Streak::new(uid());
    s.advance(date(1)).unwrap();
    let (covered, day) = uc.freeze_missed_day(s, date(3), 2);
    assert_eq!(day, Some(date(2)));
    assert_eq!(covered.last_extended_on, Some(date(2)));
    assert_eq!(covered.current_length, 1);
    let (same, none) = uc.freeze_missed_day(s, date(3), 0);
    assert_eq!((same, none), (s, None));
    assert_eq!(uc.freeze_missed_day(s, date(2), 5).1, None);
}

#[test]
fn previous_day_crosses_month_and_year() {
    let d = CalendarDate::from_ymd(2024, 3, 1).unwrap().previous_day().unwrap();
    assert_eq!(d, CalendarDate::from_ymd(2024, 2, 29).unwrap());
    let d = CalendarDate::from_ymd(2025, 1, 1).unwrap().previous_day().unwrap();
    assert_eq!(d, CalendarDate::from_ymd(2024, 12, 31).unwrap());
    assert!(CalendarDate::from_ymd(-262143, 1, 1).unwrap().previous_day().is_none());
    assert!(CalendarDate::from_ymd(2024, 2, 29).unwrap().is_before(&CalendarDate::from_ymd(2024, 3, 1).unwrap()));
}
