use vstd::prelude::*;

use crate::common::calendar::{date_lt, day_before, CalendarDate};
use crate::common::decimal::Dec;
use crate::common::ids::EntityId;
use crate::streaks::daily_activity::DailyActivity;
use crate::streaks::streak::{Streak, StreakError};

verus! {

/// Records a finished reading session into the day's activity and, when
/// the session newly meets the daily goal, advances the streak. The
/// storage calls are made by the caller with the repository held here;
/// the decisions are the methods below.
pub struct RecordDailyActivity<R> {
    repo: R,
    goal_minutes: Dec,
}

/// The day's activity after a session, and whether the streak must now be
/// advanced for that day.
#[derive(Clone, Copy, Debug)]
pub struct SessionRecorded {
    pub activity: DailyActivity,
    pub advance_streak: bool,
}

/// Whether the day before `date` was missed: the streak was last
/// extended before that day.
pub open spec fn day_missed(streak: Streak, date: CalendarDate) -> bool {
    &&& streak.last_extended_on is Some
    &&& day_before(date) is Some
    &&& date_lt(streak.last_extended_on->0, day_before(date)->0)
}

/// Whether the missed day before `date` is to be covered: a day was
/// missed and the user has freezes available.
pub open spec fn freeze_due(streak: Streak, date: CalendarDate, available: i64) -> bool {
    day_missed(streak, date) && available > 0
}

impl<R> RecordDailyActivity<R> {
    /// The daily goal that this use case applies.
    pub closed spec fn goal(&self) -> Dec {
        self.goal_minutes
    }

    /// The repository that this use case loads from and saves to.
    pub closed spec fn repository(&self) -> R {
        self.repo
    }

    /// The use case over `repo` with a daily goal of `goal_minutes`.
    pub fn new(repo: R, goal_minutes: Dec) -> (res: Self)
        ensures
            res.goal() == goal_minutes,
            res.repository() == repo,
    {
        RecordDailyActivity { repo, goal_minutes }
    }

    /// The repository through which the caller loads and saves.
    pub fn repo(&self) -> (res: &R)
        ensures
            *res == self.repository(),
    {
        &self.repo
    }

    /// The daily goal.
    pub fn goal_minutes(&self) -> (res: Dec)
        ensures
            res == self.goal(),
    {
        self.goal_minutes
    }

    /// Adds a session to the loaded day's activity. The activity is to be
    /// saved in every case; the streak is to be loaded, advanced for the
    /// session's day and saved only when `advance_streak` holds. Returns
    /// `None` where a total would overflow.
    pub fn record_session(&self, activity: DailyActivity, minutes: Dec, pages: i32, xp: i32) -> (res: Option<SessionRecorded>)
        requires
            activity.minutes.wf(),
            minutes.wf(),
            self.goal().wf(),
        ensures
            activity.can_accumulate(minutes, pages, xp) ==> res == Some(SessionRecorded {
                activity: activity.accumulated(minutes, pages, xp, self.goal()).0,
                advance_streak: activity.accumulated(minutes, pages, xp, self.goal()).1,
            }),
            !activity.can_accumulate(minutes, pages, xp) ==> res is None,
    {
        let mut day = activity;
        match day.try_accumulate(minutes, pages, xp, self.goal_minutes) {
            Some(newly_met) => Some(SessionRecorded { activity: day, advance_streak: newly_met }),
            None => None,
        }
    }

    /// Whether the day before `date` was missed by `streak`.
    pub fn missed_day(&self, streak: &Streak, date: CalendarDate) -> (res: bool)
        ensures
            res == day_missed(*streak, date),
    {
        missed_before(streak, date)
    }

    /// Before the streak is advanced for `date`: where the day before was
    /// missed (the streak was last extended earlier) and `available`
    /// freezes are held, that day is covered by one, which is returned so
    /// that the caller spends it; otherwise the streak is left as it is.
    pub fn freeze_missed_day(&self, streak: Streak, date: CalendarDate, available: i64) -> (res: (Streak, Option<CalendarDate>))
        ensures
            freeze_due(streak, date, available) ==> res == (streak.covered(day_before(date)->0), Some(day_before(date)->0)),
            !freeze_due(streak, date, available) ==> res == (streak, None::<CalendarDate>),
    {
        if available <= 0 || !self.missed_day(&streak, date) {
            return (streak, None);
        }
        let missed = match date.previous_day() {
            Some(d) => d,
            None => {
                proof { assert(false); }
                return (streak, None);
            },
        };
        let mut s = streak;
        s.cover_day(missed);
        (s, Some(missed))
    }

    /// Advances the loaded streak for the session's day; a day that was
    /// already counted is refused.
    pub fn advance_streak(&self, streak: Streak, date: CalendarDate) -> (res: Result<Streak, StreakError>)
        requires
            streak.last_extended_on != Some(date) ==> streak.current_length < i32::MAX,
        ensures
            streak.advance_outcome(date).1 is Ok ==> res == Ok::<Streak, StreakError>(streak.advance_outcome(date).0),
            streak.advance_outcome(date).1 is Err ==> res == Err::<Streak, StreakError>(StreakError::DayAlreadyProcessed(date)),
    {
        let mut s = streak;
        match s.advance(date) {
            Ok(()) => Ok(s),
            Err(e) => Err(e),
        }
    }
}

/// Where the recording of a session stands.
#[derive(Clone, Copy, Debug)]
pub enum RecordStage {
    /// Nothing done yet.
    Start,
    /// The day's activity was asked for.
    ActivityRequested,
    /// The updated activity was asked to be saved; whether the session
    /// newly met the goal.
    ActivitySaveRequested(bool),
    /// The streak was asked for.
    StreakRequested,
    /// The streak missed the day before; the freezes available were asked
    /// for.
    FreezesRequested(Streak),
    /// A freeze was asked to be spent; the streak with the missed day
    /// covered.
    FreezeUseRequested(Streak),
    /// The advanced streak was asked to be saved.
    StreakSaveRequested,
    /// The answer was given.
    Finished,
}

/// What the caller hands back.
pub enum RecordEvent {
    /// Start.
    Begin,
    /// The user's activity on the session's day (a new one where none is
    /// stored).
    ActivityLoaded(DailyActivity),
    /// The activity was saved.
    ActivitySaved,
    /// The user's streak (a new one where none is stored).
    StreakLoaded(Streak),
    /// The number of freezes the user has available.
    FreezesCounted(i64),
    /// A freeze was spent.
    FreezeUsed,
    /// The streak was saved.
    StreakSaved,
}

/// What the caller does next.
#[derive(Debug)]
pub enum RecordAction {
    /// Load (or create) the activity of a user on a day.
    LoadActivity(EntityId, CalendarDate),
    /// Save an activity.
    SaveActivity(DailyActivity),
    /// Load (or create) a user's streak.
    LoadStreak(EntityId),
    /// Count the freezes a user has available.
    CountFreezes(EntityId),
    /// Spend one of a user's freezes on a day.
    UseFreeze(EntityId, CalendarDate),
    /// Save a streak.
    SaveStreak(Streak),
    /// Answer: done, or the streak refused the day.
    Respond(Result<(), StreakError>),
}

/// The recording of one session: whose, on which day, its amounts, the
/// daily goal, and how far it got.
#[derive(Clone, Copy, Debug)]
pub struct RecordFlow {
    pub user_id: EntityId,
    pub date: CalendarDate,
    pub minutes: Dec,
    pub pages: i32,
    pub xp: i32,
    pub goal: Dec,
    pub stage: RecordStage,
}

/// Whether `event` is the one that `stage` waits for.
pub open spec fn record_expected(stage: RecordStage, event: RecordEvent) -> bool {
    match stage {
        RecordStage::Start => event is Begin,
        RecordStage::ActivityRequested => event is ActivityLoaded,
        RecordStage::ActivitySaveRequested(_) => event is ActivitySaved,
        RecordStage::StreakRequested => event is StreakLoaded,
        RecordStage::FreezesRequested(_) => event is FreezesCounted,
        RecordStage::FreezeUseRequested(_) => event is FreezeUsed,
        RecordStage::StreakSaveRequested => event is StreakSaved,
        RecordStage::Finished => false,
    }
}

/// The stage and action that advancing `streak` on `date` leads to: save
/// the advanced streak, or answer with the refusal of a day already
/// counted.
pub open spec fn advance_next(streak: Streak, date: CalendarDate) -> (RecordStage, RecordAction) {
    if streak.advance_outcome(date).1 is Ok {
        (RecordStage::StreakSaveRequested, RecordAction::SaveStreak(streak.advance_outcome(date).0))
    } else {
        (RecordStage::Finished, RecordAction::Respond(Err(StreakError::DayAlreadyProcessed(date))))
    }
}

impl<R> RecordDailyActivity<R> {
    /// The recording of a session of `user_id` on `date`, under this use
    /// case's daily goal, not yet started.
    pub fn start(&self, user_id: EntityId, date: CalendarDate, minutes: Dec, pages: i32, xp: i32) -> (res: RecordFlow)
        ensures
            res == (RecordFlow { user_id, date, minutes, pages, xp, goal: self.goal(), stage: RecordStage::Start }),
    {
        RecordFlow { user_id, date, minutes, pages, xp, goal: self.goal_minutes, stage: RecordStage::Start }
    }
}

impl RecordFlow {
    /// What the stages hold: a streak waiting for freezes missed the day
    /// before, a covered streak has that day as its last, and neither is
    /// at the longest run that can be counted.
    pub open spec fn flow_ok(self) -> bool {
        &&& (self.stage matches RecordStage::FreezesRequested(s)
            ==> day_missed(s, self.date) && s.current_length < i32::MAX)
        &&& (self.stage matches RecordStage::FreezeUseRequested(s)
            ==> day_before(self.date) is Some && s.last_extended_on == day_before(self.date)
                && s.current_length < i32::MAX)
    }

    /// Whether `other` is this recording at another stage.
    pub open spec fn same_request(self, other: RecordFlow) -> bool {
        &&& other.user_id == self.user_id && other.date == self.date
        &&& other.minutes == self.minutes && other.pages == self.pages && other.xp == self.xp
        &&& other.goal == self.goal
    }

    /// The next state and action after `event`. The session is added to
    /// the day's activity, which is saved. Only where the session newly
    /// met the goal is the streak loaded; where it missed the day before
    /// and the user has a freeze available, one freeze is spent on that
    /// day; then the streak is advanced for the session's day and saved,
    /// or the day is refused as already counted.
    pub fn step(self, event: RecordEvent) -> (res: (RecordFlow, RecordAction))
        requires
            record_expected(self.stage, event),
            self.flow_ok(),
            self.minutes.wf(),
            self.goal.wf(),
            event matches RecordEvent::ActivityLoaded(a) ==> a.minutes.wf() && a.can_accumulate(self.minutes, self.pages, self.xp),
            event matches RecordEvent::StreakLoaded(s) ==> (s.last_extended_on != Some(self.date) ==> s.current_length < i32::MAX),
        ensures
            self.same_request(res.0),
            res.0.flow_ok(),
            self.stage is Start ==> res.0.stage is ActivityRequested
                && res.1 == RecordAction::LoadActivity(self.user_id, self.date),
            event matches RecordEvent::ActivityLoaded(a) ==> ({
                let acc = a.accumulated(self.minutes, self.pages, self.xp, self.goal);
                res.0.stage == RecordStage::ActivitySaveRequested(acc.1) && res.1 == RecordAction::SaveActivity(acc.0)
            }),
            event is ActivitySaved ==> (self.stage matches RecordStage::ActivitySaveRequested(advance)
                && (advance ==> res.0.stage is StreakRequested && res.1 == RecordAction::LoadStreak(self.user_id))
                && (!advance ==> res.0.stage is Finished && res.1 == RecordAction::Respond(Ok(())))),
            event matches RecordEvent::StreakLoaded(s) ==> (
                (day_missed(s, self.date) ==> res.0.stage == RecordStage::FreezesRequested(s)
                    && res.1 == RecordAction::CountFreezes(self.user_id))
                && (!day_missed(s, self.date) ==> (res.0.stage, res.1) == advance_next(s, self.date))),
            event matches RecordEvent::FreezesCounted(n) ==> (self.stage matches RecordStage::FreezesRequested(s)
                && (freeze_due(s, self.date, n) ==> res.0.stage == RecordStage::FreezeUseRequested(s.covered(day_before(self.date)->0))
                    && res.1 == RecordAction::UseFreeze(self.user_id, day_before(self.date)->0))
                && (!freeze_due(s, self.date, n) ==> (res.0.stage, res.1) == advance_next(s, self.date))),
            event is FreezeUsed ==> (self.stage matches RecordStage::FreezeUseRequested(s)
                && (res.0.stage, res.1) == advance_next(s, self.date)),
            event is StreakSaved ==> res.0.stage is Finished && res.1 == RecordAction::Respond(Ok(())),
    {
        let mut next = self;
        match event {
            RecordEvent::Begin => {
                next.stage = RecordStage::ActivityRequested;
                (next, RecordAction::LoadActivity(self.user_id, self.date))
            },
            RecordEvent::ActivityLoaded(a) => {
                let mut day = a;
                let newly_met = day.accumulate(self.minutes, self.pages, self.xp, self.goal);
                next.stage = RecordStage::ActivitySaveRequested(newly_met);
                (next, RecordAction::SaveActivity(day))
            },
            RecordEvent::ActivitySaved => {
                let advance = match self.stage {
                    RecordStage::ActivitySaveRequested(b) => b,
                    _ => {
                        proof { assert(false); }
                        false
                    },
                };
                if advance {
                    next.stage = RecordStage::StreakRequested;
                    (next, RecordAction::LoadStreak(self.user_id))
                } else {
                    next.stage = RecordStage::Finished;
                    (next, RecordAction::Respond(Ok(())))
                }
            },
            RecordEvent::StreakLoaded(s) => {
                if missed_before(&s, self.date) {
                    proof {
                        assert(date_lt(day_before(self.date)->0, self.date));
                    }
                    next.stage = RecordStage::FreezesRequested(s);
                    (next, RecordAction::CountFreezes(self.user_id))
                } else {
                    advance_step(next, s)
                }
            },
            RecordEvent::FreezesCounted(n) => {
                let s = match self.stage {
                    RecordStage::FreezesRequested(s) => s,
                    _ => {
                        proof { assert(false); }
                        return (next, RecordAction::Respond(Ok(())));
                    },
                };
                if n > 0 {
                    let missed = match self.date.previous_day() {
                        Some(d) => d,
                        None => {
                            proof { assert(false); }
                            return (next, RecordAction::Respond(Ok(())));
                        },
                    };
                    let mut covered = s;
                    covered.cover_day(missed);
                    next.stage = RecordStage::FreezeUseRequested(covered);
                    (next, RecordAction::UseFreeze(self.user_id, missed))
                } else {
                    proof {
                        assert(date_lt(day_before(self.date)->0, self.date));
                    }
                    advance_step(next, s)
                }
            },
            RecordEvent::FreezeUsed => {
                let s = match self.stage {
                    RecordStage::FreezeUseRequested(s) => s,
                    _ => {
                        proof { assert(false); }
                        return (next, RecordAction::Respond(Ok(())));
                    },
                };
                proof {
                    assert(date_lt(day_before(self.date)->0, self.date));
                }
                advance_step(next, s)
            },
            RecordEvent::StreakSaved => {
                next.stage = RecordStage::Finished;
                (next, RecordAction::Respond(Ok(())))
            },
        }
    }
}

/// Whether `streak` missed the day before `date`.
fn missed_before(streak: &Streak, date: CalendarDate) -> (res: bool)
    ensures
        res == day_missed(*streak, date),
{
    let missed = match date.previous_day() {
        Some(d) => d,
        None => return false,
    };
    match streak.last_extended_on {
        Some(l) => l.is_before(&missed),
        None => false,
    }
}

/// Advances `streak` for the flow's day and moves the flow on.
fn advance_step(flow: RecordFlow, streak: Streak) -> (res: (RecordFlow, RecordAction))
    requires
        streak.last_extended_on != Some(flow.date) ==> streak.current_length < i32::MAX,
    ensures
        res.0 == (RecordFlow { stage: advance_next(streak, flow.date).0, ..flow }),
        res.1 == advance_next(streak, flow.date).1,
{
    let mut next = flow;
    let mut s = streak;
    match s.advance(flow.date) {
        Ok(()) => {
            next.stage = RecordStage::StreakSaveRequested;
            (next, RecordAction::SaveStreak(s))
        },
        Err(e) => {
            next.stage = RecordStage::Finished;
            (next, RecordAction::Respond(Err(e)))
        },
    }
}

/// Within one day the goal is reported as newly met at most once in a row:
/// once a session has crossed the goal, the next session on that day does
/// not ask for the streak to advance again.
pub proof fn law_goal_crossing_reported_once(
    a: DailyActivity,
    m1: Dec, p1: i32, x1: i32,
    m2: Dec, p2: i32, x2: i32,
    goal: Dec,
)
    requires
        a.can_accumulate(m1, p1, x1),
        a.accumulated(m1, p1, x1, goal).1,
    ensures
        !a.accumulated(m1, p1, x1, goal).0.accumulated(m2, p2, x2, goal).1,
{
}

/// A session that leaves the total below the goal never asks for the
/// streak to advance.
pub proof fn law_below_goal_leaves_streak(a: DailyActivity, m: Dec, p: i32, x: i32, goal: Dec)
    requires
        a.can_accumulate(m, p, x),
        !a.accumulated(m, p, x, goal).0.met_daily_goal,
    ensures
        !a.accumulated(m, p, x, goal).1,
{
}

/// A missed day covered by a freeze does not end the run: after the
/// freeze, advancing on `date` extends the current run by one and marks
/// `date` as the last day extended.
pub proof fn law_frozen_gap_keeps_run(s: Streak, date: CalendarDate, available: i64)
    requires
        freeze_due(s, date, available),
        s.current_length < i32::MAX,
    ensures
        ({
            let frozen = s.covered(day_before(date)->0);
            &&& frozen.advance_outcome(date).1 is Ok
            &&& frozen.advance_outcome(date).0.current_length == s.current_length + 1
            &&& frozen.advance_outcome(date).0.last_extended_on == Some(date)
        }),
{
    assert(day_before(date)->0 != date);
}

} // verus!
