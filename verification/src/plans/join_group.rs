use vstd::prelude::*;

use crate::common::error::AppError;
use crate::common::ids::EntityId;
use crate::plans::domain::{PlanDetail, PlanGroup, PlanGroupMember, PlanSubscription};

verus! {

/// Joins a group by its invite code and, where the user does not follow
/// the group's plan yet, subscribes them to it within the group. The
/// caller performs each action of `JoinGroupFlow` and hands back what it
/// got.
pub struct JoinGroup<R> {
    pub repository: R,
}

/// Where a join stands.
pub enum JoinStage {
    /// Nothing done yet; the invite code to look up.
    Start(String),
    /// The group was asked for.
    GroupRequested,
    /// The membership of the group (identifier, plan) was asked for.
    JoinRequested(EntityId, EntityId),
    /// The member was made; the user's subscription to the group's plan
    /// (group identifier, plan) was asked for.
    SubscriptionRequested(PlanGroupMember, EntityId, EntityId),
    /// A subscription was asked for; the membership is the answer.
    SubscribeRequested(PlanGroupMember),
    /// The answer was given.
    Finished,
}

/// What the caller hands back.
pub enum JoinEvent {
    /// Start the join.
    Begin,
    /// The group with the invite code, if any.
    GroupLoaded(Option<PlanGroup>),
    /// The membership that was made (or already existed).
    Joined(PlanGroupMember),
    /// The user's subscription to the plan, if any.
    SubscriptionLoaded(Option<PlanSubscription>),
    /// The subscription was made.
    Subscribed,
}

/// What the caller does next.
#[derive(Debug)]
pub enum JoinAction {
    /// Look up a group by invite code.
    FindGroup(String),
    /// Make (or keep) the membership of a user in a group.
    Join(EntityId, EntityId),
    /// Load a user's subscription to a plan.
    LoadSubscription(EntityId, EntityId),
    /// Subscribe a user to a plan within a group.
    Subscribe(EntityId, EntityId, Option<EntityId>),
    /// Answer the request.
    Respond(Result<PlanGroupMember, AppError>),
}

/// The state of one join: who joins, and how far it got.
pub struct JoinGroupFlow {
    pub user_id: EntityId,
    pub stage: JoinStage,
}

/// Whether `event` is the one that `stage` waits for.
pub open spec fn join_expected(stage: JoinStage, event: JoinEvent) -> bool {
    match stage {
        JoinStage::Start(_) => event is Begin,
        JoinStage::GroupRequested => event is GroupLoaded,
        JoinStage::JoinRequested(_, _) => event is Joined,
        JoinStage::SubscriptionRequested(_, _, _) => event is SubscriptionLoaded,
        JoinStage::SubscribeRequested(_) => event is Subscribed,
        JoinStage::Finished => false,
    }
}

impl JoinGroupFlow {
    /// A join of `user_id` with `invite_code`, not yet started.
    pub fn new(user_id: EntityId, invite_code: String) -> (res: JoinGroupFlow)
        ensures
            res.user_id == user_id,
            res.stage == JoinStage::Start(invite_code),
    {
        JoinGroupFlow { user_id, stage: JoinStage::Start(invite_code) }
    }

    /// The next state and action after `event`. An unknown invite code is
    /// answered with `NotFound("plan group")`; otherwise the user joins
    /// the group, is subscribed to its plan within the group only where no
    /// subscription exists, and the membership is the answer.
    pub fn step(self, event: JoinEvent) -> (res: (JoinGroupFlow, JoinAction))
        requires
            join_expected(self.stage, event),
        ensures
            res.0.user_id == self.user_id,
            self.stage matches JoinStage::Start(code) ==> res.0.stage is GroupRequested
                && res.1 == JoinAction::FindGroup(code),
            event matches JoinEvent::GroupLoaded(found) ==> (
                (found is None ==> res.0.stage is Finished
                    && (res.1 matches JoinAction::Respond(Err(AppError::NotFound(m))) && m@ == "plan group"@))
                && (found is Some ==> res.0.stage == JoinStage::JoinRequested(found->0.id, found->0.plan_id)
                    && res.1 == JoinAction::Join(found->0.id, self.user_id))),
            event matches JoinEvent::Joined(member) ==> (self.stage matches JoinStage::JoinRequested(g, p)
                && res.0.stage == JoinStage::SubscriptionRequested(member, g, p)
                && res.1 == JoinAction::LoadSubscription(self.user_id, p)),
            event matches JoinEvent::SubscriptionLoaded(found) ==> (self.stage matches JoinStage::SubscriptionRequested(m, g, p)
                && (found is None ==> res.0.stage == JoinStage::SubscribeRequested(m)
                    && res.1 == JoinAction::Subscribe(self.user_id, p, Some(g)))
                && (found is Some ==> res.0.stage is Finished
                    && res.1 == JoinAction::Respond(Ok::<PlanGroupMember, AppError>(m)))),
            event is Subscribed ==> (self.stage matches JoinStage::SubscribeRequested(m)
                && res.0.stage is Finished
                && res.1 == JoinAction::Respond(Ok::<PlanGroupMember, AppError>(m))),
    {
        let JoinGroupFlow { user_id, stage } = self;
        match event {
            JoinEvent::Begin => {
                let code = match stage {
                    JoinStage::Start(c) => c,
                    _ => {
                        proof { assert(false); }
                        String::new()
                    },
                };
                (JoinGroupFlow { user_id, stage: JoinStage::GroupRequested }, JoinAction::FindGroup(code))
            },
            JoinEvent::GroupLoaded(found) => match found {
                None => (
                    JoinGroupFlow { user_id, stage: JoinStage::Finished },
                    JoinAction::Respond(Err(AppError::not_found("plan group"))),
                ),
                Some(group) => (
                    JoinGroupFlow { user_id, stage: JoinStage::JoinRequested(group.id, group.plan_id) },
                    JoinAction::Join(group.id, user_id),
                ),
            },
            JoinEvent::Joined(member) => {
                let (g, p) = match stage {
                    JoinStage::JoinRequested(g, p) => (g, p),
                    _ => {
                        proof { assert(false); }
                        (0, 0)
                    },
                };
                (
                    JoinGroupFlow { user_id, stage: JoinStage::SubscriptionRequested(member, g, p) },
                    JoinAction::LoadSubscription(user_id, p),
                )
            },
            JoinEvent::SubscriptionLoaded(found) => {
                match stage {
                    JoinStage::SubscriptionRequested(m, g, p) => {
                        if found.is_none() {
                            (JoinGroupFlow { user_id, stage: JoinStage::SubscribeRequested(m) }, JoinAction::Subscribe(user_id, p, Some(g)))
                        } else {
                            (JoinGroupFlow { user_id, stage: JoinStage::Finished }, JoinAction::Respond(Ok(m)))
                        }
                    },
                    _ => {
                        proof { assert(false); }
                        (JoinGroupFlow { user_id, stage: JoinStage::Finished }, JoinAction::Respond(Err(AppError::Forbidden)))
                    },
                }
            },
            JoinEvent::Subscribed => {
                match stage {
                    JoinStage::SubscribeRequested(m) => (JoinGroupFlow { user_id, stage: JoinStage::Finished }, JoinAction::Respond(Ok(m))),
                    _ => {
                        proof { assert(false); }
                        (JoinGroupFlow { user_id, stage: JoinStage::Finished }, JoinAction::Respond(Err(AppError::Forbidden)))
                    },
                }
            },
        }
    }
}

/// Subscribing to a plan twice is refused: with an existing subscription
/// the answer is "already subscribed to this plan".
pub fn subscription_allowed(existing: &Option<PlanSubscription>) -> (res: Result<(), AppError>)
    ensures
        existing is None ==> res is Ok,
        existing is Some ==> (res matches Err(AppError::UnprocessableEntity(m)) && m@ == "already subscribed to this plan"@),
{
    match existing {
        Some(_) => Err(AppError::unprocessable_message("already subscribed to this plan")),
        None => Ok(()),
    }
}

/// The loaded plan, or `NotFound("plan")`.
pub fn plan_found(found: Option<PlanDetail>) -> (res: Result<PlanDetail, AppError>)
    ensures
        found is Some ==> res is Ok && res->Ok_0 == found->0,
        found is None ==> (res matches Err(AppError::NotFound(m)) && m@ == "plan"@),
{
    crate::common::error::found_or_not_found(found, "plan")
}

} // verus!
