use reading_features::common::decimal::Dec;
use reading_features::reader::progress::{Progress, ProgressError};
use rust_decimal::Decimal;

fn item() -> u128 {
    7
}

fn rd(d: Dec) -> Decimal {
    Decimal::from_i128_with_scale(d.mantissa, d.scale)
}

#[test]
fn set_page_within_bounds_ok() {
    let mut p = Progress::new(item(), Some(300));
    p.set_page(150).unwrap();
    assert_eq!(p.current_page, 150);
}

#[test]
fn set_page_to_last_page_ok() {
    let mut p = Progress::new(item(), Some(300));
    p.set_page(300).unwrap();
    assert_eq!(p.current_page, 300);
}

#[test]
fn set_page_exceeds_total_is_err() {
    let mut p = Progress::new(item(), Some(300));
    let err = p.set_page(301).unwrap_err();
    assert_eq!(err, ProgressError::PageExceedsTotal(301, 300));
    assert_eq!(p.current_page, 0);
}

#[test]
fn set_negative_page_is_err() {
    let mut p = Progress::new(item(), Some(300));
    assert_eq!(p.set_page(-1).unwrap_err(), ProgressError::NegativePage);
}

#[test]
fn set_page_without_total_has_no_upper_bound() {
    let mut p = Progress::new(item(), None);
    p.set_page(9999).unwrap();
    assert_eq!(p.current_page, 9999);
}

#[test]
fn pct_is_zero_on_fresh_progress() {
    let p = Progress::new(item(), Some(200));
    assert_eq!(rd(p.pct()), Decimal::new(0, 0));
}

#[test]
fn pct_is_50_at_halfway() {
    let mut p = Progress::new(item(), Some(200));
    p.set_page(100).unwrap();
    assert_eq!(rd(p.pct()), Decimal::new(50, 0));
}

#[test]
fn pct_is_100_at_last_page() {
    let mut p = Progress::new(item(), Some(200));
    p.set_page(200).unwrap();
    assert_eq!(rd(p.pct()), Decimal::new(100, 0));
}

#[test]
fn pct_is_zero_when_total_pages_unknown() {
    let p = Progress::new(item(), None);
    assert_eq!(rd(p.pct()), Decimal::new(0, 0));
}

#[test]
fn pct_is_zero_when_total_pages_is_zero() {
    let p = Progress::new(item(), Some(0));
    assert_eq!(rd(p.pct()), Decimal::new(0, 0));
}

#[test]
fn pct_caps_at_100() {
    let mut p = Progress::new(item(), Some(100));
    p.current_page = 120;
    assert_eq!(rd(p.pct()), Decimal::new(100, 0));
}

#[test]
fn is_finished_when_at_last_page() {
    let mut p = Progress::new(item(), Some(300));
    p.set_page(300).unwrap();
    assert!(p.is_finished());
}

#[test]
fn is_not_finished_one_page_before_end() {
    let mut p = Progress::new(item(), Some(300));
    p.set_page(299).unwrap();
    assert!(!p.is_finished());
}

#[test]
fn is_not_finished_when_total_unknown() {
    let mut p = Progress::new(item(), None);
    p.set_page(500).unwrap();
    assert!(!p.is_finished());
}

#[test]
fn is_not_finished_when_total_is_zero() {
    let p = Progress::new(item(), Some(0));
    assert!(!p.is_finished());
}

#[test]
fn set_locator_is_independent_of_page() {
    let mut p = Progress::new(item(), Some(300));
    p.set_locator("epubcfi(/6/4[chap01]!/4/2/1:0)".to_string());
    assert_eq!(p.current_page, 0);
    assert!(p.current_locator.is_some());
}

// ── further cases ────────────────────────────────────────

#[test]
fn pct_of_a_third_is_rounded_by_decimal_division() {
    let mut p = Progress::new(item(), Some(3));
    p.set_page(1).unwrap();
    let expected = Decimal::from(1) / Decimal::from(3) * Decimal::from(100);
    assert_eq!(rd(p.pct()), expected);
    assert!(rd(p.pct()) < Decimal::from(34));
}

#[test]
fn pct_of_negative_page_is_negative() {
    let mut p = Progress::new(item(), Some(4));
    p.current_page = -1;
    assert_eq!(rd(p.pct()), Decimal::from(-25));
}

#[test]
fn negative_total_means_zero_pct_and_not_finished() {
    let mut p = Progress::new(item(), Some(-5));
    assert_eq!(rd(p.pct()), Decimal::ZERO);
    assert!(!p.is_finished());
    assert_eq!(p.set_page(1).unwrap_err(), ProgressError::PageExceedsTotal(1, -5));
}

#[test]
fn refused_page_keeps_the_locator() {
    let mut p = Progress::new(item(), Some(10));
    p.set_locator("loc".to_string());
    assert!(p.set_page(11).is_err());
    assert_eq!(p.current_locator.as_deref(), Some("loc"));
}

#[test]
fn pct_is_below_100_one_page_before_the_end() {
    for total in [3, 300, 2_147_483_647] {
        let mut p = Progress::new(item(), Some(total));
        p.set_page(total - 1).unwrap();
        let pct = rd(p.pct());
        assert!(pct < Decimal::new(100, 0), "{pct} for {total}");
        assert!(pct > Decimal::new(0, 0));
    }
}

#[test]
fn pct_is_100_past_the_end_of_an_unbounded_total() {
    let p = Progress { library_item_id: item(), current_page: 2_147_483_647, total_pages: Some(1), current_locator: None };
    assert_eq!(rd(p.pct()), Decimal::new(100, 0));
}
