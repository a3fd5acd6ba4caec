use reading_features::common::calendar::CalendarDate;
use reading_features::streaks::streak::{Streak, StreakError, MAX_EQUIPPED_FREEZES};

fn date(y: i32, m: u32, d: u32) -> CalendarDate {
    CalendarDate::from_ymd(y, m, d).unwrap()
}

fn user() -> u128 {
    0x6f1c_2a7e_0000_4000_8000_0000_0000_0001
}

// ── advance ──────────────────────────────────────────────

#[test]
fn advance_starts_at_one() {
    let mut s = Streak::new(user());
    s.advance(date(2026, 6, 1)).unwrap();
    assert_eq!(s.current_length, 1);
    assert_eq!(s.longest_length, 1);
    assert_eq!(s.started_on, Some(date(2026, 6, 1)));
}

#[test]
fn advance_increments_current_and_updates_longest() {
    let mut s = Streak::new(user());
    s.advance(date(2026, 6, 1)).unwrap();
    s.advance(date(2026, 6, 2)).unwrap();
    s.advance(date(2026, 6, 3)).unwrap();
    assert_eq!(s.current_length, 3);
    assert_eq!(s.longest_length, 3);
}

#[test]
fn advance_same_day_is_idempotent_error() {
    let mut s = Streak::new(user());
    s.advance(date(2026, 6, 1)).unwrap();
    let err = s.advance(date(2026, 6, 1)).unwrap_err();
    assert_eq!(err, StreakError::DayAlreadyProcessed(date(2026, 6, 1)));
    assert_eq!(s.current_length, 1);
}

#[test]
fn advance_preserves_longest_after_reset() {
    let mut s = Streak::new(user());
    s.advance(date(2026, 6, 1)).unwrap();
    s.advance(date(2026, 6, 2)).unwrap();
    s.advance(date(2026, 6, 3)).unwrap();
    s.break_streak();
    s.advance(date(2026, 6, 10)).unwrap();
    assert_eq!(s.current_length, 1);
    assert_eq!(s.longest_length, 3);
}

#[test]
fn advance_does_not_update_longest_when_current_below() {
    let mut s = Streak::new(user());
    s.advance(date(2026, 6, 1)).unwrap();
    s.advance(date(2026, 6, 2)).unwrap();
    s.break_streak();
    s.advance(date(2026, 6, 10)).unwrap();
    assert_eq!(s.longest_length, 2);
}

// ── freeze ───────────────────────────────────────────────

#[test]
fn consume_freeze_decrements_count_and_marks_day() {
    let mut s = Streak::new(user());
    s.equip_freeze();
    s.advance(date(2026, 6, 1)).unwrap();
    s.consume_freeze(date(2026, 6, 2)).unwrap();
    assert_eq!(s.freezes_equipped, 0);
    assert_eq!(s.last_extended_on, Some(date(2026, 6, 2)));
    assert_eq!(s.current_length, 1);
}

#[test]
fn consume_freeze_with_none_available_is_err() {
    let mut s = Streak::new(user());
    let err = s.consume_freeze(date(2026, 6, 2)).unwrap_err();
    assert_eq!(err, StreakError::NoFreezeAvailable);
}

#[test]
fn equip_freeze_caps_at_max() {
    let mut s = Streak::new(user());
    assert!(s.equip_freeze());
    assert!(s.equip_freeze());
    assert!(!s.equip_freeze());
    assert_eq!(s.freezes_equipped, MAX_EQUIPPED_FREEZES);
}

// ── break ────────────────────────────────────────────────

#[test]
fn break_resets_current_and_clears_dates() {
    let mut s = Streak::new(user());
    s.advance(date(2026, 6, 1)).unwrap();
    s.advance(date(2026, 6, 2)).unwrap();
    s.break_streak();
    assert_eq!(s.current_length, 0);
    assert_eq!(s.started_on, None);
    assert_eq!(s.last_extended_on, None);
}

#[test]
fn break_on_fresh_streak_is_noop() {
    let mut s = Streak::new(user());
    s.break_streak();
    assert_eq!(s.current_length, 0);
    assert_eq!(s.longest_length, 0);
}

// ── is_active ────────────────────────────────────────────

#[test]
fn is_active_false_before_first_advance() {
    assert!(!Streak::new(user()).is_active());
}

#[test]
fn is_active_false_after_break() {
    let mut s = Streak::new(user());
    s.advance(date(2026, 6, 1)).unwrap();
    s.break_streak();
    assert!(!s.is_active());
}

// ── further cases ────────────────────────────────────────

#[test]
fn advance_after_freeze_on_same_day_is_refused() {
    let mut s = Streak::new(user());
    assert!(s.equip_freeze());
    s.consume_freeze(date(2026, 6, 2)).unwrap();
    let err = s.advance(date(2026, 6, 2)).unwrap_err();
    assert_eq!(err, StreakError::DayAlreadyProcessed(date(2026, 6, 2)));
    assert_eq!(s.current_length, 0);
}

#[test]
fn refused_freeze_changes_nothing() {
    let mut s = Streak::new(user());
    s.advance(date(2026, 6, 1)).unwrap();
    let before = s;
    assert_eq!(s.consume_freeze(date(2026, 6, 2)), Err(StreakError::NoFreezeAvailable));
    assert_eq!(s, before);
}

#[test]
fn equip_after_consume_is_allowed_again() {
    let mut s = Streak::new(user());
    assert!(s.equip_freeze());
    assert!(s.equip_freeze());
    s.consume_freeze(date(2026, 6, 3)).unwrap();
    assert_eq!(s.freezes_equipped, 1);
    assert!(s.equip_freeze());
    assert_eq!(s.freezes_equipped, Streak::max_equipped_freezes());
}

#[test]
fn started_on_is_kept_while_advancing() {
    let mut s = Streak::new(user());
    s.advance(date(2026, 6, 1)).unwrap();
    s.advance(date(2026, 6, 2)).unwrap();
    assert_eq!(s.started_on, Some(date(2026, 6, 1)));
    assert_eq!(s.last_extended_on, Some(date(2026, 6, 2)));
    assert!(s.is_active());
}

#[test]
fn frozen_day_cannot_be_advanced_again() {
    let mut s = Streak::new(1);
    s.equip_freeze();
    let d = CalendarDate::from_ymd(2026, 6, 4).unwrap();
    s.consume_freeze(d).unwrap();
    assert_eq!(s.advance(d), Err(StreakError::DayAlreadyProcessed(d)));
}
