use vstd::prelude::*;

use crate::common::calendar::{today, CalendarDate};
use crate::common::clock::{now, Timestamp};
use crate::common::error::UnknownName;
use crate::common::ids::{new_id, EntityId};
use crate::common::text::same_text;

verus! {

/// Where a subscriber stands with a plan.
#[derive(Clone, Copy, Debug, PartialEq, Eq, Structural)]
pub enum SubscriptionStatus {
    Active,
    Completed,
    Paused,
    Abandoned,
}

/// The stored name of a status.
pub open spec fn status_name(s: SubscriptionStatus) -> Seq<char> {
    match s {
        SubscriptionStatus::Active => "active"@,
        SubscriptionStatus::Completed => "completed"@,
        SubscriptionStatus::Paused => "paused"@,
        SubscriptionStatus::Abandoned => "abandoned"@,
    }
}

/// The status a stored name stands for.
pub open spec fn status_named(s: Seq<char>) -> Option<SubscriptionStatus> {
    if s == "active"@ {
        Some(SubscriptionStatus::Active)
    } else if s == "completed"@ {
        Some(SubscriptionStatus::Completed)
    } else if s == "paused"@ {
        Some(SubscriptionStatus::Paused)
    } else if s == "abandoned"@ {
        Some(SubscriptionStatus::Abandoned)
    } else {
        None
    }
}

impl SubscriptionStatus {
    /// The stored name of the status.
    pub fn as_str(&self) -> (res: &'static str)
        ensures
            res@ == status_name(*self),
    {
        match self {
            SubscriptionStatus::Active => "active",
            SubscriptionStatus::Completed => "completed",
            SubscriptionStatus::Paused => "paused",
            SubscriptionStatus::Abandoned => "abandoned",
        }
    }

    /// The status that a stored name stands for; another name is refused
    /// with "unknown subscription_status: " and the name.
    pub fn from_name(s: &str) -> (res: Result<SubscriptionStatus, UnknownName>)
        ensures
            status_named(s@) is Some ==> (res matches Ok(v) && v == status_named(s@)->0),
            status_named(s@) is None ==> (res matches Err(e) && e.message@ == "unknown subscription_status: "@ + s@),
    {
        if same_text(s, "active") {
            Ok(SubscriptionStatus::Active)
        } else if same_text(s, "completed") {
            Ok(SubscriptionStatus::Completed)
        } else if same_text(s, "paused") {
            Ok(SubscriptionStatus::Paused)
        } else if same_text(s, "abandoned") {
            Ok(SubscriptionStatus::Abandoned)
        } else {
            Err(UnknownName::new("unknown subscription_status: ", s))
        }
    }
}

/// Reading a status's name gives the status back.
pub proof fn law_status_name_round_trip(s: SubscriptionStatus)
    ensures
        status_named(status_name(s)) == Some(s),
{
    reveal_strlit("active");
    reveal_strlit("completed");
    reveal_strlit("paused");
    reveal_strlit("abandoned");
    assert("active"@.len() == 6);
    assert("completed"@.len() == 9);
    assert("paused"@.len() == 6);
    assert("abandoned"@.len() == 9);
    assert("active"@[0] != "paused"@[0]);
    assert("completed"@[0] != "abandoned"@[0]);
}

/// A reading plan.
#[derive(Clone, Debug)]
pub struct ReadingPlan {
    pub id: EntityId,
    pub title: String,
    pub description: Option<String>,
    pub cover_url: Option<String>,
    pub category: Option<String>,
    pub duration_days: i32,
    pub is_official: bool,
    pub creator_id: Option<EntityId>,
    pub created_at: Timestamp,
}

/// One day of a plan.
#[derive(Clone, Debug)]
pub struct PlanDay {
    pub id: EntityId,
    pub plan_id: EntityId,
    pub day_number: i32,
    pub title: Option<String>,
    pub description: Option<String>,
}

/// One reading of a plan day.
#[derive(Clone, Debug)]
pub struct PlanDayItem {
    pub id: EntityId,
    pub plan_day_id: EntityId,
    pub book_id: Option<EntityId>,
    pub from_locator: Option<String>,
    pub to_locator: Option<String>,
    pub label: Option<String>,
}

/// A plan with its days and each day's readings.
#[derive(Clone, Debug)]
pub struct PlanDetail {
    pub plan: ReadingPlan,
    pub days: Vec<(PlanDay, Vec<PlanDayItem>)>,
}

/// A user's subscription to a plan.
#[derive(Clone, Copy, Debug)]
pub struct PlanSubscription {
    pub id: EntityId,
    pub user_id: EntityId,
    pub plan_id: EntityId,
    pub group_id: Option<EntityId>,
    pub started_on: CalendarDate,
    pub current_day: i32,
    pub status: SubscriptionStatus,
    pub created_at: Timestamp,
}

/// A completed day of a subscription.
#[derive(Clone, Copy, Debug)]
pub struct PlanProgress {
    pub id: EntityId,
    pub subscription_id: EntityId,
    pub plan_day_id: EntityId,
    pub completed_at: Option<Timestamp>,
}

/// A group of users reading a plan together.
#[derive(Clone, Debug)]
pub struct PlanGroup {
    pub id: EntityId,
    pub plan_id: EntityId,
    pub owner_id: EntityId,
    pub name: Option<String>,
    pub invite_code: Option<String>,
    pub created_at: Timestamp,
}

/// A user's membership of a group.
#[derive(Clone, Copy, Debug)]
pub struct PlanGroupMember {
    pub id: EntityId,
    pub group_id: EntityId,
    pub user_id: EntityId,
    pub joined_at: Timestamp,
}

impl ReadingPlan {
    /// A new unofficial plan by `creator_id`, with a new identifier,
    /// created now.
    pub fn new(
        title: String,
        description: Option<String>,
        cover_url: Option<String>,
        category: Option<String>,
        duration_days: i32,
        creator_id: EntityId,
    ) -> (res: ReadingPlan)
        ensures
            res.title == title,
            res.description == description,
            res.cover_url == cover_url,
            res.category == category,
            res.duration_days == duration_days,
            !res.is_official,
            res.creator_id == Some(creator_id),
    {
        ReadingPlan {
            id: new_id(),
            title,
            description,
            cover_url,
            category,
            duration_days,
            is_official: false,
            creator_id: Some(creator_id),
            created_at: now(),
        }
    }
}

impl PlanDay {
    /// Day `day_number` of plan `plan_id`, with a new identifier.
    pub fn new(plan_id: EntityId, day_number: i32, title: Option<String>, description: Option<String>) -> (res: PlanDay)
        ensures
            res.plan_id == plan_id,
            res.day_number == day_number,
            res.title == title,
            res.description == description,
    {
        PlanDay { id: new_id(), plan_id, day_number, title, description }
    }
}

impl PlanDayItem {
    /// A reading of day `plan_day_id`, with a new identifier.
    pub fn new(
        plan_day_id: EntityId,
        book_id: Option<EntityId>,
        from_locator: Option<String>,
        to_locator: Option<String>,
        label: Option<String>,
    ) -> (res: PlanDayItem)
        ensures
            res.plan_day_id == plan_day_id,
            res.book_id == book_id,
            res.from_locator == from_locator,
            res.to_locator == to_locator,
            res.label == label,
    {
        PlanDayItem { id: new_id(), plan_day_id, book_id, from_locator, to_locator, label }
    }
}

impl PlanSubscription {
    /// An active subscription of `user_id` to `plan_id`, at day one,
    /// started today, with a new identifier.
    pub fn new(user_id: EntityId, plan_id: EntityId, group_id: Option<EntityId>) -> (res: PlanSubscription)
        ensures
            res.user_id == user_id,
            res.plan_id == plan_id,
            res.group_id == group_id,
            res.current_day == 1,
            res.status == SubscriptionStatus::Active,
            res.started_on.wf(),
    {
        PlanSubscription {
            id: new_id(),
            user_id,
            plan_id,
            group_id,
            started_on: today(),
            current_day: 1,
            status: SubscriptionStatus::Active,
            created_at: now(),
        }
    }
}

impl PlanSubscription {
    /// A subscription as it was stored: a missing current day reads as day
    /// one, and the stored status name must name a status, else it is
    /// refused as `from_name` refuses it.
    pub fn from_stored(
        id: EntityId,
        user_id: EntityId,
        plan_id: EntityId,
        group_id: Option<EntityId>,
        started_on: CalendarDate,
        current_day: Option<i32>,
        status: &str,
        created_at: Timestamp,
    ) -> (res: Result<PlanSubscription, UnknownName>)
        ensures
            status_named(status@) is None ==> (res matches Err(e)
                && e.message@ == "unknown subscription_status: "@ + status@),
            status_named(status@) is Some ==> (res matches Ok(sub) && sub == (PlanSubscription {
                id,
                user_id,
                plan_id,
                group_id,
                started_on,
                current_day: if current_day is Some { current_day->0 } else { 1 },
                status: status_named(status@)->0,
                created_at,
            })),
    {
        let status = match SubscriptionStatus::from_name(status) {
            Ok(v) => v,
            Err(e) => return Err(e),
        };
        let current_day = match current_day {
            Some(d) => d,
            None => 1,
        };
        Ok(PlanSubscription { id, user_id, plan_id, group_id, started_on, current_day, status, created_at })
    }
}

impl PlanProgress {
    /// A not yet completed day of a subscription, with a new identifier.
    pub fn new(subscription_id: EntityId, plan_day_id: EntityId) -> (res: PlanProgress)
        ensures
            res.subscription_id == subscription_id,
            res.plan_day_id == plan_day_id,
            res.completed_at is None,
    {
        PlanProgress { id: new_id(), subscription_id, plan_day_id, completed_at: None }
    }
}

impl PlanGroup {
    /// A group of `owner_id` for `plan_id`, without a name or an invite
    /// code, with a new identifier, created now.
    pub fn new(plan_id: EntityId, owner_id: EntityId) -> (res: PlanGroup)
        ensures
            res.plan_id == plan_id,
            res.owner_id == owner_id,
            res.name is None,
            res.invite_code is None,
    {
        PlanGroup { id: new_id(), plan_id, owner_id, name: None, invite_code: None, created_at: now() }
    }
}

impl PlanGroupMember {
    /// The membership of `user_id` in `group_id`, with a new identifier,
    /// joined now.
    pub fn new(group_id: EntityId, user_id: EntityId) -> (res: PlanGroupMember)
        ensures
            res.group_id == group_id,
            res.user_id == user_id,
    {
        PlanGroupMember { id: new_id(), group_id, user_id, joined_at: now() }
    }
}

} // verus!
