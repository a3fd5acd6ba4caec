use vstd::prelude::*;

use crate::common::clock::{now, parse_hh_mm, parsed_hour_minute, LocalTime};
use crate::common::error::AppError;
use crate::common::ids::{new_id, EntityId};
use crate::common::text::owned;
use crate::profile::reminder::{DaysOfWeek, Reminder, ReminderType};

verus! {

/// Lists a user's reminders (a storage read done by the caller).
pub struct ListReminders<R> {
    pub repository: R,
}

/// A new reminder: a time of day, the day bits and a kind.
pub struct CreateReminderInput {
    pub time_local: LocalTime,
    pub days_of_week: i16,
    pub reminder_type: String,
}

/// Creates a reminder; the caller stores what `reminder_to_create` builds.
pub struct CreateReminder<R> {
    pub repository: R,
}

/// A change to one reminder; each field left `None` keeps its value.
pub struct UpdateReminderInput {
    pub reminder_id: EntityId,
    pub time_local: Option<LocalTime>,
    pub days_of_week: Option<i16>,
    pub enabled: Option<bool>,
}

/// Changes one of a user's reminders; the caller loads the user's
/// reminders and stores what `reminder_after_update` returns.
pub struct UpdateReminder<R> {
    pub repository: R,
}

/// Deletes a reminder (a storage write done by the caller).
pub struct DeleteReminder<R> {
    pub repository: R,
}

/// The request body that creates a reminder: time as `HH:MM`.
pub struct CreateReminderRequest {
    pub time_local: String,
    pub days_of_week: i16,
    pub reminder_type: Option<String>,
}

/// The request body that changes a reminder.
pub struct UpdateReminderRequest {
    pub time_local: Option<String>,
    pub days_of_week: Option<i16>,
    pub enabled: Option<bool>,
}

/// The days that `bits` stands for.
pub open spec fn days_of(bits: i16) -> DaysOfWeek {
    DaysOfWeek {
        monday: bits & 1 != 0,
        tuesday: bits & 2 != 0,
        wednesday: bits & 4 != 0,
        thursday: bits & 8 != 0,
        friday: bits & 16 != 0,
        saturday: bits & 32 != 0,
        sunday: bits & 64 != 0,
    }
}

/// The time of day that `s` is read as, where chrono reads one.
pub open spec fn time_read(s: Seq<char>) -> LocalTime {
    let p = parsed_hour_minute(s)->0;
    LocalTime { hour: p.0 as u32, minute: p.1 as u32, second: 0, nanosecond: 0 }
}

/// `r` with the change applied.
pub open spec fn reminder_changed(r: Reminder, input: UpdateReminderInput) -> Reminder {
    Reminder {
        time_local: if input.time_local is Some { input.time_local->0 } else { r.time_local },
        days_of_week: if input.days_of_week is Some { days_of(input.days_of_week->0) } else { r.days_of_week },
        enabled: if input.enabled is Some { input.enabled->0 } else { r.enabled },
        ..r
    }
}

/// `x` is reminder `r` changed as `input` asks: a given time, days or
/// enabled flag is the given one (the days those the bits stand for),
/// anything left out is kept, and the reminder stays the same reminder of
/// the same user.
pub open spec fn applies_reminder_change(r: Reminder, input: UpdateReminderInput, x: Reminder) -> bool {
    &&& x.id == r.id && x.user_id == r.user_id && x.type_ == r.type_ && x.created_at == r.created_at
    &&& (input.time_local matches Some(t) ==> x.time_local == t)
    &&& (input.time_local is None ==> x.time_local == r.time_local)
    &&& (input.days_of_week matches Some(b) ==> x.days_of_week == days_of(b))
    &&& (input.days_of_week is None ==> x.days_of_week == r.days_of_week)
    &&& (input.enabled matches Some(e) ==> x.enabled == e)
    &&& (input.enabled is None ==> x.enabled == r.enabled)
}

/// A reminder update gives the user what was asked: each given field is
/// the given value, each other field is kept.
pub proof fn law_reminder_change_applied(r: Reminder, input: UpdateReminderInput)
    ensures
        applies_reminder_change(r, input, reminder_changed(r, input)),
{
}

/// The position of the first reminder with identifier `id`, if any.
pub open spec fn first_with_id(rs: Seq<Reminder>, id: EntityId) -> Option<int> {
    if exists|i: int| 0 <= i < rs.len() && rs[i].id == id {
        Some(choose|i: int| 0 <= i < rs.len() && rs[i].id == id && forall|j: int| 0 <= j < i ==> rs[j].id != id)
    } else {
        None
    }
}

impl<R> CreateReminder<R> {
    /// The reminder to store for `user_id`: a new identifier, the given
    /// time, the days the bits stand for, daily, enabled, created now.
    /// The requested kind is not used.
    pub fn reminder_to_create(&self, user_id: EntityId, input: CreateReminderInput) -> (res: Reminder)
        ensures
            res.user_id == user_id,
            res.time_local == input.time_local,
            res.days_of_week == days_of(input.days_of_week),
            res.type_ == ReminderType::Daily,
            res.enabled,
    {
        Reminder {
            id: new_id(),
            user_id,
            time_local: input.time_local,
            days_of_week: DaysOfWeek::from_bits(input.days_of_week),
            type_: ReminderType::Daily,
            enabled: true,
            created_at: now(),
        }
    }
}

impl<R> UpdateReminder<R> {
    /// The first of the user's reminders with the requested identifier,
    /// with the change applied; a missing reminder is refused.
    pub fn reminder_after_update(&self, reminders: Vec<Reminder>, input: UpdateReminderInput) -> (res: Result<Reminder, AppError>)
        ensures
            first_with_id(reminders@, input.reminder_id) is None ==> (res matches Err(AppError::NotFound(m)) && m@ == "reminder"@),
            first_with_id(reminders@, input.reminder_id) matches Some(i)
                ==> res == Ok::<Reminder, AppError>(reminder_changed(reminders@[i], input)),
            res is Ok <==> exists|i: int| 0 <= i < reminders@.len() && #[trigger] reminders@[i].id == input.reminder_id,
            first_with_id(reminders@, input.reminder_id) matches Some(i)
                ==> (res matches Ok(x) && x.id == input.reminder_id && applies_reminder_change(reminders@[i], input, x)),
    {
        let mut k: usize = 0;
        while k < reminders.len()
            invariant
                0 <= k <= reminders.len(),
                forall|j: int| 0 <= j < k ==> reminders@[j].id != input.reminder_id,
            decreases reminders.len() - k,
        {
            if reminders[k].id == input.reminder_id {
                let r = reminders[k];
                let changed = Reminder {
                    time_local: match input.time_local { Some(t) => t, None => r.time_local },
                    days_of_week: match input.days_of_week { Some(d) => DaysOfWeek::from_bits(d), None => r.days_of_week },
                    enabled: match input.enabled { Some(e) => e, None => r.enabled },
                    ..r
                };
                proof {
                    let ki = k as int;
                    assert(exists|i: int| 0 <= i < reminders@.len() && reminders@[i].id == input.reminder_id);
                    let c = first_with_id(reminders@, input.reminder_id)->0;
                    assert(forall|j: int| 0 <= j < c ==> reminders@[j].id != input.reminder_id);
                    assert(c == ki) by {
                        if c < ki {
                        } else if c > ki {
                        }
                    }
                    law_reminder_change_applied(r, input);
                }
                return Ok(changed);
            }
            k = k + 1;
        }
        Err(AppError::not_found("reminder"))
    }
}

/// Reads the request's time, `HH:MM`; an unreadable time is refused with
/// `message`.
fn time_or_refusal(s: &String, message: &str) -> (res: Result<LocalTime, AppError>)
    ensures
        parsed_hour_minute(s@) is None ==> (res matches Err(AppError::UnprocessableEntity(m)) && m@ == message@),
        parsed_hour_minute(s@) is Some ==> res == Ok::<LocalTime, AppError>(time_read(s@)),
{
    match parse_hh_mm(s.as_str()) {
        Some(t) => Ok(t),
        None => Err(AppError::unprocessable_message(message)),
    }
}

impl CreateReminderRequest {
    /// The use case input: the time read as `HH:MM` (else refused with
    /// "invalid time format, use HH:MM") and the kind defaulting to
    /// `reading`.
    pub fn into_input(self) -> (res: Result<CreateReminderInput, AppError>)
        ensures
            parsed_hour_minute(self.time_local@) is None ==> (res matches Err(AppError::UnprocessableEntity(m))
                && m@ == "invalid time format, use HH:MM"@),
            parsed_hour_minute(self.time_local@) is Some ==> (res matches Ok(i)
                && i.time_local == time_read(self.time_local@)
                && i.days_of_week == self.days_of_week
                && (self.reminder_type is Some ==> i.reminder_type == self.reminder_type->0)
                && (self.reminder_type is None ==> i.reminder_type@ == "reading"@)),
    {
        let time = match time_or_refusal(&self.time_local, "invalid time format, use HH:MM") {
            Ok(t) => t,
            Err(e) => return Err(e),
        };
        let reminder_type = match self.reminder_type {
            Some(t) => t,
            None => owned("reading"),
        };
        Ok(CreateReminderInput { time_local: time, days_of_week: self.days_of_week, reminder_type })
    }
}

impl UpdateReminderRequest {
    /// The use case input for reminder `reminder_id`: a given time is read
    /// as `HH:MM` (else refused with "invalid time format").
    pub fn into_input(self, reminder_id: EntityId) -> (res: Result<UpdateReminderInput, AppError>)
        ensures
            self.time_local is Some && parsed_hour_minute(self.time_local->0@) is None
                ==> (res matches Err(AppError::UnprocessableEntity(m)) && m@ == "invalid time format"@),
            !(self.time_local is Some && parsed_hour_minute(self.time_local->0@) is None) ==> (res matches Ok(i)
                && i.reminder_id == reminder_id
                && (self.time_local is Some ==> i.time_local == Some(time_read(self.time_local->0@)))
                && (self.time_local is None ==> i.time_local is None)
                && i.days_of_week == self.days_of_week
                && i.enabled == self.enabled),
    {
        let time = match self.time_local {
            Some(s) => match time_or_refusal(&s, "invalid time format") {
                Ok(t) => Some(t),
                Err(e) => return Err(e),
            },
            None => None,
        };
        Ok(UpdateReminderInput { reminder_id, time_local: time, days_of_week: self.days_of_week, enabled: self.enabled })
    }
}

} // verus!
