use vstd::prelude::*;

use crate::common::calendar::CalendarDate;
use crate::common::ids::EntityId;

verus! {

/// Most freezes a user can hold at once.
pub const MAX_EQUIPPED_FREEZES: i16 = 2;

/// A user's run of days on which the daily goal was met.
#[derive(Clone, Copy, Debug, PartialEq, Eq, Structural)]
pub struct Streak {
    pub user_id: EntityId,
    pub current_length: i32,
    pub longest_length: i32,
    pub started_on: Option<CalendarDate>,
    pub last_extended_on: Option<CalendarDate>,
    pub freezes_equipped: i16,
}

/// Why a streak operation was refused.
#[derive(Clone, Copy, Debug, PartialEq, Eq, Structural)]
pub enum StreakError {
    /// No freeze is equipped.
    NoFreezeAvailable,
    /// The streak was already extended on that day.
    DayAlreadyProcessed(CalendarDate),
}

impl Streak {
    /// The states that the operations of this type can reach from a new
    /// streak: the current run is never longer than the longest, a run is
    /// in progress exactly when it has a start date, and the freezes stay
    /// between zero and the maximum.
    pub open spec fn wf(self) -> bool {
        &&& 0 <= self.current_length <= self.longest_length
        &&& (self.current_length == 0) == (self.started_on is None)
        &&& 0 <= self.freezes_equipped <= MAX_EQUIPPED_FREEZES
    }

    /// The streak after a successful `advance` on `today`.
    pub open spec fn advanced(self, today: CalendarDate) -> Streak {
        let current = self.current_length + 1;
        Streak {
            current_length: current as i32,
            started_on: if self.started_on is None { Some(today) } else { self.started_on },
            longest_length: if current > self.longest_length { current as i32 } else { self.longest_length },
            last_extended_on: Some(today),
            ..self
        }
    }

    /// The streak and the result that `advance` on `today` gives.
    pub open spec fn advance_outcome(self, today: CalendarDate) -> (Streak, Result<(), StreakError>) {
        if self.last_extended_on == Some(today) {
            (self, Err(StreakError::DayAlreadyProcessed(today)))
        } else {
            (self.advanced(today), Ok(()))
        }
    }

    /// The streak after a successful `consume_freeze` for `missed_day`.
    pub open spec fn freeze_consumed(self, missed_day: CalendarDate) -> Streak {
        Streak {
            freezes_equipped: (self.freezes_equipped - 1) as i16,
            last_extended_on: Some(missed_day),
            ..self
        }
    }

    /// The streak after `cover_day` on `day`.
    pub open spec fn covered(self, day: CalendarDate) -> Streak {
        Streak { last_extended_on: Some(day), ..self }
    }

    /// The streak after `break_streak`.
    pub open spec fn broken(self) -> Streak {
        Streak { current_length: 0, started_on: None, last_extended_on: None, ..self }
    }

    /// The streak after a successful `equip_freeze`.
    pub open spec fn freeze_added(self) -> Streak {
        Streak { freezes_equipped: (self.freezes_equipped + 1) as i16, ..self }
    }

    /// A streak of nothing for `user_id`.
    pub fn new(user_id: EntityId) -> (res: Streak)
        ensures
            res.user_id == user_id,
            res.current_length == 0,
            res.longest_length == 0,
            res.started_on is None,
            res.last_extended_on is None,
            res.freezes_equipped == 0,
            res.wf(),
    {
        Streak {
            user_id,
            current_length: 0,
            longest_length: 0,
            started_on: None,
            last_extended_on: None,
            freezes_equipped: 0,
        }
    }

    /// Whether the streak was last extended (or frozen) on `day`.
    fn extended_on(&self, day: CalendarDate) -> (res: bool)
        ensures
            res == (self.last_extended_on == Some(day)),
    {
        match self.last_extended_on {
            Some(d) => d.year == day.year && d.month == day.month && d.day == day.day,
            None => false,
        }
    }

    /// Advances the streak for `today`. A second call for the same day is
    /// refused and changes nothing, so a day never counts twice.
    pub fn advance(&mut self, today: CalendarDate) -> (res: Result<(), StreakError>)
        requires
            old(self).last_extended_on != Some(today) ==> old(self).current_length < i32::MAX,
        ensures
            (*final(self), res) == old(self).advance_outcome(today),
            old(self).wf() ==> final(self).wf(),
    {
        if self.extended_on(today) {
            return Err(StreakError::DayAlreadyProcessed(today));
        }
        self.current_length = self.current_length + 1;
        if self.started_on.is_none() {
            self.started_on = Some(today);
        }
        if self.current_length > self.longest_length {
            self.longest_length = self.current_length;
        }
        self.last_extended_on = Some(today);
        Ok(())
    }

    /// Spends one equipped freeze on `missed_day` in place of breaking the
    /// streak; the day is marked so that it is not penalised twice.
    pub fn consume_freeze(&mut self, missed_day: CalendarDate) -> (res: Result<(), StreakError>)
        requires
            old(self).freezes_equipped > i16::MIN,
        ensures
            old(self).freezes_equipped == 0 ==> res == Err::<(), StreakError>(StreakError::NoFreezeAvailable)
                && *final(self) == *old(self),
            old(self).freezes_equipped != 0 ==> res is Ok && *final(self) == old(self).freeze_consumed(missed_day),
            old(self).wf() ==> final(self).wf(),
    {
        if self.freezes_equipped == 0 {
            return Err(StreakError::NoFreezeAvailable);
        }
        self.freezes_equipped = self.freezes_equipped - 1;
        self.last_extended_on = Some(missed_day);
        Ok(())
    }

    /// Marks `day` as handled by a freeze held elsewhere: the run goes on
    /// and nothing else changes.
    pub fn cover_day(&mut self, day: CalendarDate)
        ensures
            *final(self) == old(self).covered(day),
            old(self).wf() ==> final(self).wf(),
    {
        self.last_extended_on = Some(day);
    }

    /// Breaks the streak: the current run ends, the longest is kept.
    pub fn break_streak(&mut self)
        ensures
            *final(self) == old(self).broken(),
            old(self).wf() ==> final(self).wf(),
    {
        self.current_length = 0;
        self.started_on = None;
        self.last_extended_on = None;
    }

    /// Equips one more freeze; returns false, changing nothing, when the
    /// maximum is already held.
    pub fn equip_freeze(&mut self) -> (res: bool)
        ensures
            res == (old(self).freezes_equipped < MAX_EQUIPPED_FREEZES),
            res ==> *final(self) == old(self).freeze_added(),
            !res ==> *final(self) == *old(self),
            old(self).wf() ==> final(self).wf(),
    {
        if self.freezes_equipped >= MAX_EQUIPPED_FREEZES {
            return false;
        }
        self.freezes_equipped = self.freezes_equipped + 1;
        true
    }

    /// Whether a run is in progress.
    pub fn is_active(&self) -> (res: bool)
        ensures
            res == (self.current_length > 0),
    {
        self.current_length > 0
    }

    /// Most freezes a user can hold at once.
    pub fn max_equipped_freezes() -> (res: i16)
        ensures
            res == MAX_EQUIPPED_FREEZES,
    {
        MAX_EQUIPPED_FREEZES
    }
}

/// Advancing twice on the same day counts the day once: when an advance
/// on `today` succeeds, a second advance on `today` is refused with
/// `DayAlreadyProcessed` and leaves the streak as the first one left it.
pub proof fn law_same_day_counts_once(s: Streak, today: CalendarDate)
    requires
        s.advance_outcome(today).1 is Ok,
    ensures
        s.advance_outcome(today).0.advance_outcome(today)
            == (s.advance_outcome(today).0, Err::<(), StreakError>(StreakError::DayAlreadyProcessed(today))),
{
}

/// The longest run never shrinks: advancing, freezing, breaking and
/// equipping all leave it at least as long as before.
pub proof fn law_longest_never_shrinks(s: Streak, day: CalendarDate)
    ensures
        s.current_length < i32::MAX ==> s.advanced(day).longest_length >= s.longest_length,
        s.freeze_consumed(day).longest_length == s.longest_length,
        s.broken().longest_length == s.longest_length,
        s.freeze_added().longest_length == s.longest_length,
{
}

/// After an advance the longest run is at least the current run, and a
/// break keeps the longest run while ending the current one.
pub proof fn law_break_keeps_longest(s: Streak, day: CalendarDate)
    requires
        s.wf(),
        s.current_length < i32::MAX,
    ensures
        s.advanced(day).longest_length >= s.advanced(day).current_length,
        s.advanced(day).broken().current_length == 0,
        s.advanced(day).broken().longest_length == s.advanced(day).longest_length,
        !(s.advanced(day).broken().current_length > 0),
{
}

/// A day covered by a freeze is marked as handled: spending a freeze on
/// `missed_day` keeps the current run, and the day can then not be
/// counted again by an advance.
pub proof fn law_frozen_day_is_handled(s: Streak, missed_day: CalendarDate)
    ensures
        s.freeze_consumed(missed_day).current_length == s.current_length,
        s.freeze_consumed(missed_day).advance_outcome(missed_day).1
            == Err::<(), StreakError>(StreakError::DayAlreadyProcessed(missed_day)),
{
}

} // verus!
