use chrono::Timelike;
use vstd::prelude::*;

verus! {

/// An instant in UTC: whole seconds since the Unix epoch and the
/// nanoseconds within that second.
#[derive(Clone, Copy, Debug, PartialEq, Eq, Structural)]
pub struct Timestamp {
    pub secs: i64,
    pub nanos: u32,
}

/// `a` is not later than `b`.
pub open spec fn ts_le(a: Timestamp, b: Timestamp) -> bool {
    a.secs < b.secs || (a.secs == b.secs && a.nanos <= b.nanos)
}

impl Timestamp {
    /// Whether `self` is not later than `other`.
    pub fn not_after(&self, other: &Timestamp) -> (res: bool)
        ensures
            res == ts_le(*self, *other),
    {
        self.secs < other.secs || (self.secs == other.secs && self.nanos <= other.nanos)
    }
}

/// A time of day without a time zone.
#[derive(Clone, Copy, Debug, PartialEq, Eq, Structural)]
pub struct LocalTime {
    pub hour: u32,
    pub minute: u32,
    pub second: u32,
    pub nanosecond: u32,
}

/// The character of the decimal digit `d` (0 to 9).
pub open spec fn digit_char(d: int) -> char {
    (d + 48) as char
}

/// `n` (0 to 99) written with two digits.
pub open spec fn two_digits(n: int) -> Seq<char> {
    seq![digit_char(n / 10), digit_char(n % 10)]
}

/// What `chrono::NaiveTime::parse_from_str(s, "%H:%M")` accepts, as hour
/// and minute, or `None` where it refuses `s`.
pub uninterp spec fn parsed_hour_minute(s: Seq<char>) -> Option<(int, int)>;

impl LocalTime {
    /// Whether the fields name a time of day (only the 59th second, a
    /// leap second, may carry a billion nanoseconds or more).
    pub open spec fn wf(self) -> bool {
        &&& self.hour < 24 && self.minute < 60 && self.second < 60
        &&& self.nanosecond < 2_000_000_000
        &&& (self.nanosecond >= 1_000_000_000 ==> self.second == 59)
    }

    /// The time of day with these fields, or `None` where they name none.
    pub fn from_hms_nano(hour: u32, minute: u32, second: u32, nanosecond: u32) -> (res: Option<LocalTime>)
        ensures
            (LocalTime { hour, minute, second, nanosecond }).wf() ==> res == Some(LocalTime { hour, minute, second, nanosecond }),
            !(LocalTime { hour, minute, second, nanosecond }).wf() ==> res is None,
    {
        if hour < 24 && minute < 60 && second < 60 && nanosecond < 2_000_000_000
            && (nanosecond < 1_000_000_000 || second == 59) {
            Some(LocalTime { hour, minute, second, nanosecond })
        } else {
            None
        }
    }

    /// The time written as hours and minutes, `HH:MM`.
    pub fn to_hh_mm(&self) -> (res: String)
        requires
            self.wf(),
        ensures
            res@ == two_digits(self.hour as int) + seq![':'] + two_digits(self.minute as int),
    {
        format_hh_mm(self.hour, self.minute, self.second, self.nanosecond)
    }
}

/// Parses a time of day written as `HH:MM`, as chrono reads it; seconds
/// are zero.
pub fn parse_hh_mm(s: &str) -> (res: Option<LocalTime>)
    ensures
        res is Some <==> parsed_hour_minute(s@) is Some,
        res matches Some(t) ==> parsed_hour_minute(s@) == Some((t.hour as int, t.minute as int))
            && t.second == 0 && t.nanosecond == 0 && t.wf(),
{
    match chrono_parse_hh_mm(s) {
        Some((h, m)) => Some(LocalTime { hour: h, minute: m, second: 0, nanosecond: 0 }),
        None => None,
    }
}

/// Calls `chrono::NaiveTime::parse_from_str(s, "%H:%M")` and reads hour
/// and minute. The result is named `parsed_hour_minute`; chrono checks
/// the hour (below 24) and minute (below 60) of what it returns, and that
/// is claimed too.
#[verifier::external_body]
fn chrono_parse_hh_mm(s: &str) -> (res: Option<(u32, u32)>)
    ensures
        match res {
            Some((h, m)) => parsed_hour_minute(s@) == Some((h as int, m as int)) && h < 24 && m < 60,
            None => parsed_hour_minute(s@) is None,
        },
{
    match chrono::NaiveTime::parse_from_str(s, "%H:%M") {
        Ok(t) => Some((t.hour(), t.minute())),
        Err(_) => None,
    }
}

/// Calls `chrono::NaiveTime::format(.., "%H:%M")` and renders it. chrono
/// writes the hour and the minute each with two digits, zero-padded,
/// separated by a colon; that is the claim.
#[verifier::external_body]
fn format_hh_mm(hour: u32, minute: u32, second: u32, nanosecond: u32) -> (res: String)
    requires
        (LocalTime { hour, minute, second, nanosecond }).wf(),
    ensures
        res@ == two_digits(hour as int) + seq![':'] + two_digits(minute as int),
{
    let t = chrono::NaiveTime::from_hms_nano_opt(hour, minute, second, nanosecond).unwrap();
    t.format("%H:%M").to_string()
}

/// Calls `chrono::Utc::now` and reads its seconds and nanoseconds. The
/// result depends on the clock, so nothing is claimed of it.
#[verifier::external_body]
pub(crate) fn now() -> (res: Timestamp) {
    let t = chrono::Utc::now();
    Timestamp { secs: t.timestamp(), nanos: t.timestamp_subsec_nanos() }
}

} // verus!
