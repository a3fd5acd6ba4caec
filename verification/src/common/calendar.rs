use chrono::Datelike;
use vstd::prelude::*;

use crate::common::clock::two_digits;
use crate::common::text::digits_text;

verus! {

/// First year that a calendar date may carry.
pub const MIN_YEAR: i32 = -262143;

/// Last year that a calendar date may carry.
pub const MAX_YEAR: i32 = 262142;

/// Whether `year` is a leap year of the proleptic Gregorian calendar.
pub open spec fn is_leap_year(year: int) -> bool {
    (year % 4 == 0 && year % 100 != 0) || year % 400 == 0
}

/// Number of days of `month` (1 to 12) in `year`.
pub open spec fn days_in_month(year: int, month: int) -> int {
    if month == 2 {
        if is_leap_year(year) { 29 } else { 28 }
    } else if month == 4 || month == 6 || month == 9 || month == 11 {
        30
    } else {
        31
    }
}

/// Whether year, month and day name a day of the calendar that dates
/// can represent.
pub open spec fn is_valid_ymd(year: int, month: int, day: int) -> bool {
    &&& MIN_YEAR <= year <= MAX_YEAR
    &&& 1 <= month <= 12
    &&& 1 <= day <= days_in_month(year, month)
}

/// A day of the proleptic Gregorian calendar, without a time zone.
#[derive(Clone, Copy, Debug, PartialEq, Eq, Hash, Structural)]
pub struct CalendarDate {
    pub year: i32,
    pub month: u32,
    pub day: u32,
}

impl CalendarDate {
    /// Whether the fields name an existing day.
    pub open spec fn wf(self) -> bool {
        is_valid_ymd(self.year as int, self.month as int, self.day as int)
    }

    /// The date with the given year, month and day, or `None` where no
    /// such day exists.
    pub fn from_ymd(year: i32, month: u32, day: u32) -> (res: Option<CalendarDate>)
        ensures
            res is Some <==> is_valid_ymd(year as int, month as int, day as int),
            res matches Some(d) ==> d.year == year && d.month == month && d.day == day,
    {
        if ymd_exists(year, month, day) {
            Some(CalendarDate { year, month, day })
        } else {
            None
        }
    }
}

/// `a` comes before `b` in the calendar.
pub open spec fn date_lt(a: CalendarDate, b: CalendarDate) -> bool {
    ||| a.year < b.year
    ||| (a.year == b.year && a.month < b.month)
    ||| (a.year == b.year && a.month == b.month && a.day < b.day)
}

/// The day before `d`, or `None` before the first year that dates carry.
pub open spec fn day_before(d: CalendarDate) -> Option<CalendarDate> {
    if d.day > 1 {
        Some(CalendarDate { day: (d.day - 1) as u32, ..d })
    } else if d.month > 1 {
        Some(CalendarDate { month: (d.month - 1) as u32, day: days_in_month(d.year as int, d.month - 1) as u32, ..d })
    } else if d.year > MIN_YEAR {
        Some(CalendarDate { year: (d.year - 1) as i32, month: 12, day: 31 })
    } else {
        None
    }
}

/// The number of days of `month` (1 to 12) in `year`.
fn month_length(year: i32, month: u32) -> (res: u32)
    ensures
        res == days_in_month(year as int, month as int),
{
    if month == 2 {
        if (year % 4 == 0 && year % 100 != 0) || year % 400 == 0 {
            29
        } else {
            28
        }
    } else if month == 4 || month == 6 || month == 9 || month == 11 {
        30
    } else {
        31
    }
}

impl CalendarDate {
    /// Whether `self` comes before `other`.
    pub fn is_before(&self, other: &CalendarDate) -> (res: bool)
        ensures
            res == date_lt(*self, *other),
    {
        self.year < other.year || (self.year == other.year && (self.month < other.month
            || (self.month == other.month && self.day < other.day)))
    }

    /// The day before this one, or `None` before the first year.
    pub fn previous_day(&self) -> (res: Option<CalendarDate>)
        ensures
            res == day_before(*self),
            self.wf() && res is Some ==> res->0.wf() && date_lt(res->0, *self),
    {
        if self.day > 1 {
            Some(CalendarDate { day: self.day - 1, ..*self })
        } else if self.month > 1 {
            let m = self.month - 1;
            Some(CalendarDate { month: m, day: month_length(self.year, m), ..*self })
        } else if self.year > MIN_YEAR {
            Some(CalendarDate { year: self.year - 1, month: 12, day: 31 })
        } else {
            None
        }
    }
}

/// What `chrono::NaiveDate::parse_from_str(s, "%Y-%m-%d")` accepts, as
/// year, month and day, or `None` where it refuses `s`.
pub uninterp spec fn parsed_iso_date(s: Seq<char>) -> Option<(int, int, int)>;

/// `s` preceded by zeros up to `width` characters.
pub open spec fn zero_padded(s: Seq<char>, width: nat) -> Seq<char> {
    if s.len() < width {
        Seq::new((width - s.len()) as nat, |i: int| '0') + s
    } else {
        s
    }
}

/// The year as a date's text carries it: four digits for years 0 to
/// 9999, else a sign and at least four digits.
pub open spec fn year_text(year: int) -> Seq<char> {
    if 0 <= year <= 9999 {
        two_digits(year / 100) + two_digits(year % 100)
    } else if year < 0 {
        seq!['-'] + zero_padded(digits_text((-year) as nat), 4)
    } else {
        seq!['+'] + zero_padded(digits_text(year as nat), 4)
    }
}

/// The date written as `YYYY-MM-DD`, the year as `year_text` writes it.
pub open spec fn iso_text(d: CalendarDate) -> Seq<char> {
    year_text(d.year as int) + seq!['-'] + two_digits(d.month as int) + seq!['-'] + two_digits(d.day as int)
}

/// Parses a date written as `YYYY-MM-DD`, as chrono reads it.
pub fn parse_iso_date(s: &str) -> (res: Option<CalendarDate>)
    ensures
        res is Some <==> parsed_iso_date(s@) is Some,
        res matches Some(d) ==> parsed_iso_date(s@) == Some((d.year as int, d.month as int, d.day as int)) && d.wf(),
{
    match chrono_parse_ymd(s) {
        Some((year, month, day)) => Some(CalendarDate { year, month, day }),
        None => None,
    }
}

impl CalendarDate {
    /// The date as chrono writes it: `YYYY-MM-DD` for years 0 to 9999, and
    /// a signed year of at least four digits otherwise.
    pub fn to_iso_string(&self) -> (res: String)
        requires
            self.wf(),
        ensures
            res@ == iso_text(*self),
    {
        chrono_date_text(self.year, self.month, self.day)
    }
}

/// Calls `chrono::NaiveDate::parse_from_str(s, "%Y-%m-%d")` and reads the
/// year, month and day. The result is named `parsed_iso_date`; what chrono
/// returns is an existing day, and that is claimed too.
#[verifier::external_body]
fn chrono_parse_ymd(s: &str) -> (res: Option<(i32, u32, u32)>)
    ensures
        match res {
            Some((y, m, d)) => parsed_iso_date(s@) == Some((y as int, m as int, d as int))
                && is_valid_ymd(y as int, m as int, d as int),
            None => parsed_iso_date(s@) is None,
        },
{
    match chrono::NaiveDate::parse_from_str(s, "%Y-%m-%d") {
        Ok(d) => Some((d.year(), d.month(), d.day())),
        Err(_) => None,
    }
}

/// Calls `chrono::NaiveDate`'s `Display` (through `to_string`). chrono
/// writes the year with four digits for years 0 to 9999 and otherwise
/// with `{:+05}` (a sign, then at least four digits), then month and day
/// with two digits each, joined by hyphens; that is the claim.
#[verifier::external_body]
fn chrono_date_text(year: i32, month: u32, day: u32) -> (res: String)
    requires
        is_valid_ymd(year as int, month as int, day as int),
    ensures
        res@ == iso_text(CalendarDate { year, month, day }),
{
    chrono::NaiveDate::from_ymd_opt(year, month, day).unwrap().to_string()
}

/// Calls `chrono::Utc::now().date_naive()`: today's date in UTC. It depends
/// on the clock; what is claimed is only that it is an existing day.
#[verifier::external_body]
pub(crate) fn today() -> (res: CalendarDate)
    ensures
        res.wf(),
{
    let d = chrono::Utc::now().date_naive();
    CalendarDate { year: d.year(), month: d.month(), day: d.day() }
}

/// Calls `chrono::NaiveDate::from_ymd_opt`. Its source returns a date
/// exactly when the month is 1 to 12, the day exists in that month of
/// that year (leap years by the Gregorian rule) and the year lies between
/// `MIN_YEAR` and `MAX_YEAR`; this is what the contract claims.
#[verifier::external_body]
fn ymd_exists(year: i32, month: u32, day: u32) -> (res: bool)
    ensures
        res == is_valid_ymd(year as int, month as int, day as int),
{
    chrono::NaiveDate::from_ymd_opt(year, month, day).is_some()
}

} // verus!
