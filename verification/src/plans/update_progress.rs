use vstd::prelude::*;

use crate::common::error::AppError;
use crate::common::ids::EntityId;
use crate::plans::domain::{PlanDetail, PlanProgress, PlanSubscription, SubscriptionStatus};

verus! {

/// Marks a plan day complete for a subscription and moves the
/// subscription on: to the next day, or to completed once every day is
/// done. The caller performs each action of `UpdateProgressFlow` on the
/// repository and hands back what it got.
pub struct UpdateProgress<R> {
    pub repository: R,
}

/// Where a progress update stands.
#[derive(Clone, Copy, Debug)]
pub enum ProgressStage {
    /// Nothing done yet.
    Start,
    /// The subscription was asked for.
    SubscriptionRequested,
    /// The subscription is the caller's; its plan was asked for.
    PlanRequested,
    /// The plan lasts this many days; the day was asked to be marked.
    MarkRequested(i32),
    /// The day is marked; the completed days were asked to be counted.
    CountRequested(PlanProgress, i32),
    /// The subscription was asked to change; the marked day is the answer.
    WriteRequested(PlanProgress),
    /// The answer was given.
    Finished,
}

/// What the caller hands back.
pub enum ProgressEvent {
    /// Start the update.
    Begin,
    /// The subscription with the requested identifier, if any.
    SubscriptionLoaded(Option<PlanSubscription>),
    /// The plan with the requested identifier, if any.
    PlanLoaded(Option<PlanDetail>),
    /// The day was marked complete.
    DayMarked(PlanProgress),
    /// The number of completed days of the subscription.
    CompletedCounted(i64),
    /// The subscription was changed.
    SubscriptionWritten,
}

/// What the caller does next.
#[derive(Debug)]
pub enum ProgressAction {
    /// Load a subscription by identifier.
    LoadSubscription(EntityId),
    /// Load a plan by identifier.
    LoadPlan(EntityId),
    /// Mark a day of a subscription complete.
    MarkDayComplete(EntityId, EntityId),
    /// Count the completed days of a subscription.
    CountCompletedDays(EntityId),
    /// Set a subscription's status.
    SetStatus(EntityId, SubscriptionStatus),
    /// Set a subscription's current day.
    AdvanceCurrentDay(EntityId, i32),
    /// Answer the request.
    Respond(Result<PlanProgress, AppError>),
}

/// The state of one progress update: who asks, for which subscription and
/// day, and how far it got.
#[derive(Clone, Copy, Debug)]
pub struct UpdateProgressFlow {
    pub user_id: EntityId,
    pub subscription_id: EntityId,
    pub plan_day_id: EntityId,
    pub stage: ProgressStage,
}

/// The write that follows a count: completed once `completed` reaches the
/// plan's duration, else the day after the count, the count taken as a
/// 32-bit number (its low 32 bits, as `as i32` takes them).
pub open spec fn after_count(subscription_id: EntityId, completed: i64, duration_days: i32) -> ProgressAction {
    if completed >= duration_days {
        ProgressAction::SetStatus(subscription_id, SubscriptionStatus::Completed)
    } else {
        ProgressAction::AdvanceCurrentDay(subscription_id, (completed as i32 + 1) as i32)
    }
}

/// Whether the day after `completed` can be written: always once the
/// count reaches the duration, else where the count as a 32-bit number is
/// below the largest one.
pub open spec fn count_writable(completed: i64, duration_days: i32) -> bool {
    completed >= duration_days || (completed as i32) < i32::MAX
}

/// Whether `event` is the one that `stage` waits for.
pub open spec fn expected(stage: ProgressStage, event: ProgressEvent) -> bool {
    match stage {
        ProgressStage::Start => event is Begin,
        ProgressStage::SubscriptionRequested => event is SubscriptionLoaded,
        ProgressStage::PlanRequested => event is PlanLoaded,
        ProgressStage::MarkRequested(_) => event is DayMarked,
        ProgressStage::CountRequested(_, _) => event is CompletedCounted,
        ProgressStage::WriteRequested(_) => event is SubscriptionWritten,
        ProgressStage::Finished => false,
    }
}

/// `action` answers with `NotFound` for `resource`.
pub open spec fn responds_not_found(action: ProgressAction, resource: Seq<char>) -> bool {
    action matches ProgressAction::Respond(Err(AppError::NotFound(m))) && m@ == resource
}

impl UpdateProgressFlow {
    /// A progress update by `user_id` of `plan_day_id` in subscription
    /// `subscription_id`, not yet started.
    pub fn new(user_id: EntityId, subscription_id: EntityId, plan_day_id: EntityId) -> (res: UpdateProgressFlow)
        ensures
            res.user_id == user_id,
            res.subscription_id == subscription_id,
            res.plan_day_id == plan_day_id,
            res.stage is Start,
    {
        UpdateProgressFlow { user_id, subscription_id, plan_day_id, stage: ProgressStage::Start }
    }

    /// The next state and action after `event`. A missing subscription or
    /// plan is answered with `NotFound`, another user's subscription with
    /// `Forbidden`, both before anything is written; once the day is
    /// marked, the subscription becomes completed when the completed days
    /// reach the plan's duration, else moves to the day after the last
    /// completed one; the answer is the marked day.
    pub fn step(self, event: ProgressEvent) -> (res: (UpdateProgressFlow, ProgressAction))
        requires
            expected(self.stage, event),
            event matches ProgressEvent::CompletedCounted(c) ==> (self.stage matches ProgressStage::CountRequested(_, d)
                ==> count_writable(c, d)),
        ensures
            res.0.user_id == self.user_id,
            res.0.subscription_id == self.subscription_id,
            res.0.plan_day_id == self.plan_day_id,
            self.stage is Start ==> res.0.stage is SubscriptionRequested
                && res.1 == ProgressAction::LoadSubscription(self.subscription_id),
            event matches ProgressEvent::SubscriptionLoaded(found) ==> (
                (found is None ==> res.0.stage is Finished && responds_not_found(res.1, "subscription"@))
                && (found is Some && found->0.user_id != self.user_id ==> res.0.stage is Finished
                    && res.1 matches ProgressAction::Respond(Err(AppError::Forbidden)))
                && (found is Some && found->0.user_id == self.user_id ==> res.0.stage is PlanRequested
                    && res.1 == ProgressAction::LoadPlan(found->0.plan_id))),
            event matches ProgressEvent::PlanLoaded(found) ==> (
                (found is None ==> res.0.stage is Finished && responds_not_found(res.1, "plan"@))
                && (found is Some ==> res.0.stage == ProgressStage::MarkRequested(found->0.plan.duration_days)
                    && res.1 == ProgressAction::MarkDayComplete(self.subscription_id, self.plan_day_id))),
            event matches ProgressEvent::DayMarked(p) ==> (self.stage matches ProgressStage::MarkRequested(d)
                && res.0.stage == ProgressStage::CountRequested(p, d)
                && res.1 == ProgressAction::CountCompletedDays(self.subscription_id)),
            event matches ProgressEvent::CompletedCounted(c) ==> (self.stage matches ProgressStage::CountRequested(p, d)
                && res.0.stage == ProgressStage::WriteRequested(p)
                && res.1 == after_count(self.subscription_id, c, d)),
            event is SubscriptionWritten ==> (self.stage matches ProgressStage::WriteRequested(p)
                && res.0.stage is Finished
                && res.1 == ProgressAction::Respond(Ok::<PlanProgress, AppError>(p))),
    {
        let UpdateProgressFlow { user_id, subscription_id, plan_day_id, stage } = self;
        let with_stage = |s: ProgressStage| -> (r: UpdateProgressFlow)
            ensures
                r == (UpdateProgressFlow { user_id, subscription_id, plan_day_id, stage: s }),
        { UpdateProgressFlow { user_id, subscription_id, plan_day_id, stage: s } };
        match event {
            ProgressEvent::Begin => (with_stage(ProgressStage::SubscriptionRequested), ProgressAction::LoadSubscription(subscription_id)),
            ProgressEvent::SubscriptionLoaded(found) => match found {
                None => (with_stage(ProgressStage::Finished), ProgressAction::Respond(Err(AppError::not_found("subscription")))),
                Some(sub) => {
                    if sub.user_id != user_id {
                        (with_stage(ProgressStage::Finished), ProgressAction::Respond(Err(AppError::Forbidden)))
                    } else {
                        (with_stage(ProgressStage::PlanRequested), ProgressAction::LoadPlan(sub.plan_id))
                    }
                },
            },
            ProgressEvent::PlanLoaded(found) => match found {
                None => (with_stage(ProgressStage::Finished), ProgressAction::Respond(Err(AppError::not_found("plan")))),
                Some(detail) => (
                    with_stage(ProgressStage::MarkRequested(detail.plan.duration_days)),
                    ProgressAction::MarkDayComplete(subscription_id, plan_day_id),
                ),
            },
            ProgressEvent::DayMarked(progress) => {
                let duration = match stage {
                    ProgressStage::MarkRequested(d) => d,
                    _ => {
                        proof { assert(false); }
                        0
                    },
                };
                (with_stage(ProgressStage::CountRequested(progress, duration)), ProgressAction::CountCompletedDays(subscription_id))
            },
            ProgressEvent::CompletedCounted(completed) => {
                let (progress, duration) = match stage {
                    ProgressStage::CountRequested(p, d) => (p, d),
                    _ => {
                        proof { assert(false); }
                        (PlanProgress { id: 0, subscription_id: 0, plan_day_id: 0, completed_at: None }, 0)
                    },
                };
                let action = if completed >= duration as i64 {
                    ProgressAction::SetStatus(subscription_id, SubscriptionStatus::Completed)
                } else {
                    let low: i32 = (#[verifier::truncate] (completed as i32));
                    ProgressAction::AdvanceCurrentDay(subscription_id, low + 1)
                };
                (with_stage(ProgressStage::WriteRequested(progress)), action)
            },
            ProgressEvent::SubscriptionWritten => {
                let progress = match stage {
                    ProgressStage::WriteRequested(p) => p,
                    _ => {
                        proof { assert(false); }
                        PlanProgress { id: 0, subscription_id: 0, plan_day_id: 0, completed_at: None }
                    },
                };
                (with_stage(ProgressStage::Finished), ProgressAction::Respond(Ok(progress)))
            },
        }
    }
}

/// Once as many days are completed as the plan lasts, the subscription is
/// marked completed; before that it moves to the day after the completed
/// ones, which lies within the plan.
pub proof fn law_completion_follows_count(subscription_id: EntityId, completed: i64, duration_days: i32)
    requires
        completed >= 0,
    ensures
        completed >= duration_days ==> after_count(subscription_id, completed, duration_days)
            == ProgressAction::SetStatus(subscription_id, SubscriptionStatus::Completed),
        completed < duration_days ==> (after_count(subscription_id, completed, duration_days) matches
            ProgressAction::AdvanceCurrentDay(id, day) && id == subscription_id && day == completed + 1
            && 1 <= day <= duration_days),
{
}

} // verus!
