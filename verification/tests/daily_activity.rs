use reading_features::common::calendar::CalendarDate;
use reading_features::common::decimal::Dec;
use reading_features::streaks::daily_activity::DailyActivity;
use rust_decimal::Decimal;

fn today() -> CalendarDate {
    CalendarDate::from_ymd(2026, 6, 16).unwrap()
}

fn uid() -> u128 {
    42
}

fn dec(mantissa: i128, scale: u32) -> Dec {
    Dec::new(mantissa, scale).unwrap()
}

fn goal() -> Dec {
    dec(15, 0)
}

fn rd(d: Dec) -> Decimal {
    Decimal::from_i128_with_scale(d.mantissa, d.scale)
}

#[test]
fn accumulate_adds_minutes_and_pages() {
    let mut a = DailyActivity::new(uid(), today());
    a.accumulate(dec(5, 0), 3, 10, goal());
    a.accumulate(dec(7, 0), 5, 14, goal());
    assert_eq!(rd(a.minutes), Decimal::new(12, 0));
    assert_eq!(a.pages, 8);
    assert_eq!(a.xp_earned, 24);
}

#[test]
fn goal_not_met_below_threshold() {
    let mut a = DailyActivity::new(uid(), today());
    let newly_met = a.accumulate(dec(1499, 2), 0, 0, goal());
    assert!(!a.met_daily_goal);
    assert!(!newly_met);
}

#[test]
fn goal_met_exactly_at_threshold() {
    let mut a = DailyActivity::new(uid(), today());
    let newly_met = a.accumulate(dec(15, 0), 0, 0, goal());
    assert!(a.met_daily_goal);
    assert!(newly_met);
}

#[test]
fn goal_met_above_threshold() {
    let mut a = DailyActivity::new(uid(), today());
    a.accumulate(dec(30, 0), 50, 100, goal());
    assert!(a.met_daily_goal);
}

#[test]
fn accumulate_returns_newly_met_only_on_crossing() {
    let mut a = DailyActivity::new(uid(), today());
    let first = a.accumulate(dec(10, 0), 0, 0, goal());
    let second = a.accumulate(dec(6, 0), 0, 0, goal());
    let third = a.accumulate(dec(5, 0), 0, 0, goal());
    assert!(!first, "10 min is not enough to meet goal");
    assert!(second, "crossing the threshold should return true once");
    assert!(!third, "already met — no new crossing event");
}

#[test]
fn accumulate_with_zero_goal_always_met() {
    let mut a = DailyActivity::new(uid(), today());
    let newly_met = a.accumulate(dec(0, 0), 0, 0, dec(0, 0));
    assert!(a.met_daily_goal);
    assert!(newly_met);
}

#[test]
fn fresh_activity_has_zero_state() {
    let a = DailyActivity::new(uid(), today());
    assert_eq!(rd(a.minutes), Decimal::ZERO);
    assert_eq!(a.pages, 0);
    assert!(!a.met_daily_goal);
}

// ── further cases ────────────────────────────────────────

#[test]
fn fractional_minutes_are_summed_exactly() {
    let mut a = DailyActivity::new(uid(), today());
    a.accumulate(dec(1499, 2), 0, 0, goal());
    let newly_met = a.accumulate(dec(1, 2), 0, 0, goal());
    assert_eq!(rd(a.minutes), Decimal::new(15, 0));
    assert!(newly_met);
}

#[test]
fn try_accumulate_refuses_page_overflow_and_changes_nothing() {
    let mut a = DailyActivity::new(uid(), today());
    a.accumulate(dec(1, 0), i32::MAX, 0, goal());
    let before = a;
    assert_eq!(a.try_accumulate(dec(1, 0), 1, 0, goal()), None);
    assert_eq!(a.pages, before.pages);
    assert_eq!(rd(a.minutes), rd(before.minutes));
}

#[test]
fn try_accumulate_refuses_minute_overflow() {
    let mut a = DailyActivity::new(uid(), today());
    let big = dec(0xFFFF_FFFF_FFFF_FFFF_FFFF_FFFF, 0);
    a.accumulate(big, 0, 0, goal());
    assert_eq!(a.try_accumulate(big, 0, 0, goal()), None);
}

#[test]
fn try_accumulate_matches_accumulate() {
    let mut a = DailyActivity::new(uid(), today());
    assert_eq!(a.try_accumulate(dec(20, 0), 4, 8, goal()), Some(true));
    assert_eq!(a.try_accumulate(dec(1, 0), 1, 1, goal()), Some(false));
    assert_eq!(a.pages, 5);
    assert_eq!(a.xp_earned, 9);
}

#[test]
fn decimal_new_refuses_out_of_range() {
    assert!(Dec::new(1, 29).is_none());
    assert!(Dec::new(0x1_0000_0000_0000_0000_0000_0000, 0).is_none());
    assert!(Dec::new(-0xFFFF_FFFF_FFFF_FFFF_FFFF_FFFF, 28).is_some());
}
