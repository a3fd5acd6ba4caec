use vstd::prelude::*;

use crate::common::clock::{LocalTime, Timestamp};
use crate::common::ids::EntityId;

verus! {

/// The days of the week on which a reminder fires.
#[derive(Clone, Copy, Debug, PartialEq, Eq, Structural)]
pub struct DaysOfWeek {
    pub monday: bool,
    pub tuesday: bool,
    pub wednesday: bool,
    pub thursday: bool,
    pub friday: bool,
    pub saturday: bool,
    pub sunday: bool,
}

/// `weight` where `on` holds, else zero.
pub open spec fn flag(on: bool, weight: int) -> int {
    if on { weight } else { 0 }
}

/// The bit mask of `d`: bit 0 for Monday up to bit 6 for Sunday.
pub open spec fn days_mask(d: DaysOfWeek) -> int {
    flag(d.monday, 1) + flag(d.tuesday, 2) + flag(d.wednesday, 4) + flag(d.thursday, 8)
        + flag(d.friday, 16) + flag(d.saturday, 32) + flag(d.sunday, 64)
}

impl DaysOfWeek {
    /// The days whose bits are set in `bits`: bit 0 is Monday, bit 6 is
    /// Sunday; higher bits are ignored.
    pub fn from_bits(bits: i16) -> (res: DaysOfWeek)
        ensures
            res.monday == (bits & 1 != 0),
            res.tuesday == (bits & 2 != 0),
            res.wednesday == (bits & 4 != 0),
            res.thursday == (bits & 8 != 0),
            res.friday == (bits & 16 != 0),
            res.saturday == (bits & 32 != 0),
            res.sunday == (bits & 64 != 0),
    {
        DaysOfWeek {
            monday: bits & 1 != 0,
            tuesday: bits & 2 != 0,
            wednesday: bits & 4 != 0,
            thursday: bits & 8 != 0,
            friday: bits & 16 != 0,
            saturday: bits & 32 != 0,
            sunday: bits & 64 != 0,
        }
    }

    /// The bit mask of the days: bit 0 for Monday up to bit 6 for Sunday.
    pub fn to_bits(&self) -> (res: i16)
        ensures
            res == days_mask(*self),
    {
        let b0: i16 = if self.monday { 1 } else { 0 };
        let b1: i16 = if self.tuesday { 1 } else { 0 };
        let b2: i16 = if self.wednesday { 1 } else { 0 };
        let b3: i16 = if self.thursday { 1 } else { 0 };
        let b4: i16 = if self.friday { 1 } else { 0 };
        let b5: i16 = if self.saturday { 1 } else { 0 };
        let b6: i16 = if self.sunday { 1 } else { 0 };
        let res: i16 = b0 | b1 << 1u16 | b2 << 2u16 | b3 << 3u16 | b4 << 4u16 | b5 << 5u16 | b6 << 6u16;
        assert(res == b0 + 2 * b1 + 4 * b2 + 8 * b3 + 16 * b4 + 32 * b5 + 64 * b6) by (bit_vector)
            requires
                0 <= b0 <= 1, 0 <= b1 <= 1, 0 <= b2 <= 1, 0 <= b3 <= 1,
                0 <= b4 <= 1, 0 <= b5 <= 1, 0 <= b6 <= 1,
                res == b0 | b1 << 1u16 | b2 << 2u16 | b3 << 3u16 | b4 << 4u16 | b5 << 5u16 | b6 << 6u16;
        res
    }
}

/// Encoding the days as bits and decoding them gives the same days back.
pub proof fn law_bits_round_trip(d: DaysOfWeek)
    ensures
        ({
            let b = days_mask(d) as i16;
            DaysOfWeek {
                monday: b & 1 != 0,
                tuesday: b & 2 != 0,
                wednesday: b & 4 != 0,
                thursday: b & 8 != 0,
                friday: b & 16 != 0,
                saturday: b & 32 != 0,
                sunday: b & 64 != 0,
            } == d
        }),
{
    let b0: i16 = if d.monday { 1 } else { 0 };
    let b1: i16 = if d.tuesday { 1 } else { 0 };
    let b2: i16 = if d.wednesday { 1 } else { 0 };
    let b3: i16 = if d.thursday { 1 } else { 0 };
    let b4: i16 = if d.friday { 1 } else { 0 };
    let b5: i16 = if d.saturday { 1 } else { 0 };
    let b6: i16 = if d.sunday { 1 } else { 0 };
    let b: i16 = (b0 + 2 * b1 + 4 * b2 + 8 * b3 + 16 * b4 + 32 * b5 + 64 * b6) as i16;
    assert(b == days_mask(d));
    assert(
        (b & 1 != 0) == (b0 == 1) && (b & 2 != 0) == (b1 == 1) && (b & 4 != 0) == (b2 == 1)
        && (b & 8 != 0) == (b3 == 1) && (b & 16 != 0) == (b4 == 1) && (b & 32 != 0) == (b5 == 1)
        && (b & 64 != 0) == (b6 == 1)
    ) by (bit_vector)
        requires
            0 <= b0 <= 1, 0 <= b1 <= 1, 0 <= b2 <= 1, 0 <= b3 <= 1,
            0 <= b4 <= 1, 0 <= b5 <= 1, 0 <= b6 <= 1,
            b == b0 + 2 * b1 + 4 * b2 + 8 * b3 + 16 * b4 + 32 * b5 + 64 * b6;
}

/// Decoding bits and encoding the days again keeps exactly the seven day
/// bits of the input.
pub proof fn law_bits_keep_day_bits(bits: i16)
    ensures
        days_mask(DaysOfWeek {
            monday: bits & 1 != 0,
            tuesday: bits & 2 != 0,
            wednesday: bits & 4 != 0,
            thursday: bits & 8 != 0,
            friday: bits & 16 != 0,
            saturday: bits & 32 != 0,
            sunday: bits & 64 != 0,
        }) == (bits & 127),
{
    assert(
        (if bits & 1 != 0 { 1i16 } else { 0i16 }) + (if bits & 2 != 0 { 2i16 } else { 0i16 })
        + (if bits & 4 != 0 { 4i16 } else { 0i16 }) + (if bits & 8 != 0 { 8i16 } else { 0i16 })
        + (if bits & 16 != 0 { 16i16 } else { 0i16 }) + (if bits & 32 != 0 { 32i16 } else { 0i16 })
        + (if bits & 64 != 0 { 64i16 } else { 0i16 }) == bits & 127
    ) by (bit_vector);
}

/// How often a reminder repeats.
#[derive(Clone, Copy, Debug, PartialEq, Eq, Structural)]
pub enum ReminderType {
    Daily,
    Weekly,
    Monthly,
}

/// A reading reminder set by a user.
#[derive(Clone, Copy, Debug)]
pub struct Reminder {
    pub id: EntityId,
    pub user_id: EntityId,
    pub time_local: LocalTime,
    pub days_of_week: DaysOfWeek,
    pub type_: ReminderType,
    pub enabled: bool,
    pub created_at: Timestamp,
}

impl Reminder {
    /// Whether the reminder's days are exactly `day`'s.
    pub fn is_scheduled_on(&self, day: &DaysOfWeek) -> (res: bool)
        ensures
            res == (self.days_of_week == *day),
    {
        self.days_of_week == *day
    }
}

} // verus!
