use vstd::prelude::*;

use crate::common::error::AppError;
use crate::common::ids::EntityId;
use crate::common::text::{decimal_text, int_text, owned};
use crate::plans::domain::{PlanDay, PlanDayItem, PlanDetail, ReadingPlan};

verus! {

/// One reading of a day of a new plan.
pub struct CreateItemInput {
    pub book_id: Option<EntityId>,
    pub from_locator: Option<String>,
    pub to_locator: Option<String>,
    pub label: Option<String>,
}

/// One day of a new plan.
pub struct CreateDayInput {
    pub day_number: i32,
    pub title: Option<String>,
    pub description: Option<String>,
    pub items: Vec<CreateItemInput>,
}

/// A new plan with its days.
pub struct CreatePlanInput {
    pub title: String,
    pub description: Option<String>,
    pub cover_url: Option<String>,
    pub category: Option<String>,
    pub duration_days: i32,
    pub creator_id: EntityId,
    pub days: Vec<CreateDayInput>,
}

/// Creates a plan; the caller stores what `plan_to_create` builds.
pub struct CreatePlan<R> {
    pub repository: R,
}

/// The plan gives exactly as many days as it lasts.
pub open spec fn day_count_matches(input: CreatePlanInput) -> bool {
    input.duration_days >= 0 && input.days@.len() == input.duration_days as int
}

/// A plan is accepted exactly when it gives as many days as it lasts.
pub proof fn law_day_count_must_match(input: CreatePlanInput)
    ensures
        day_count_matches(input) <==> input.days@.len() == input.duration_days as int,
{
}

/// A created plan has as many days as it lasts.
pub proof fn law_created_plan_has_its_duration(input: CreatePlanInput, detail: PlanDetail)
    requires
        day_count_matches(input),
        plan_built(detail, input),
    ensures
        detail.days@.len() == detail.plan.duration_days as int,
{
}

/// Every reading of a created plan is the one requested for its day, in
/// the requested place, and belongs to that day of that plan.
pub proof fn law_created_readings_are_requested(input: CreatePlanInput, detail: PlanDetail, i: int, j: int)
    requires
        plan_built(detail, input),
        0 <= i < input.days@.len(),
        0 <= j < input.days@[i].items@.len(),
    ensures
        detail.days@[i].0.plan_id == detail.plan.id,
        detail.days@[i].0.day_number == input.days@[i].day_number,
        detail.days@[i].0.title == input.days@[i].title,
        detail.days@[i].1@.len() == input.days@[i].items@.len(),
        detail.days@[i].1@[j].plan_day_id == detail.days@[i].0.id,
        detail.days@[i].1@[j].book_id == input.days@[i].items@[j].book_id,
        detail.days@[i].1@[j].from_locator == input.days@[i].items@[j].from_locator,
        detail.days@[i].1@[j].to_locator == input.days@[i].items@[j].to_locator,
        detail.days@[i].1@[j].label == input.days@[i].items@[j].label,
{
    assert(day_built(detail.days@[i], input.days@[i], detail.plan.id));
    assert(item_built(detail.days@[i].1@[j], input.days@[i].items@[j], detail.days@[i].0.id));
}

/// The message for a plan whose day count differs from its duration.
pub open spec fn day_count_message(duration_days: int, provided: int) -> Seq<char> {
    "duration_days is "@ + int_text(duration_days) + " but "@ + int_text(provided) + " days were provided"@
}

/// `item` is the reading `input` describes, on day `day_id`.
pub open spec fn item_built(item: PlanDayItem, input: CreateItemInput, day_id: EntityId) -> bool {
    &&& item.plan_day_id == day_id
    &&& item.book_id == input.book_id
    &&& item.from_locator == input.from_locator
    &&& item.to_locator == input.to_locator
    &&& item.label == input.label
}

/// `day` is the day `input` describes, of plan `plan_id`, with its
/// readings in the given order.
pub open spec fn day_built(day: (PlanDay, Vec<PlanDayItem>), input: CreateDayInput, plan_id: EntityId) -> bool {
    &&& day.0.plan_id == plan_id
    &&& day.0.day_number == input.day_number
    &&& day.0.title == input.title
    &&& day.0.description == input.description
    &&& day.1@.len() == input.items@.len()
    &&& forall|j: int| 0 <= j < input.items@.len() ==> #[trigger] item_built(day.1@[j], input.items@[j], day.0.id)
}

/// `detail` is the plan `input` describes: an unofficial plan by the
/// creator with the input's fields, and its days in the given order.
pub open spec fn plan_built(detail: PlanDetail, input: CreatePlanInput) -> bool {
    &&& detail.plan.title == input.title
    &&& detail.plan.description == input.description
    &&& detail.plan.cover_url == input.cover_url
    &&& detail.plan.category == input.category
    &&& detail.plan.duration_days == input.duration_days
    &&& !detail.plan.is_official
    &&& detail.plan.creator_id == Some(input.creator_id)
    &&& detail.days@.len() == input.days@.len()
    &&& forall|i: int| 0 <= i < input.days@.len() ==> #[trigger] day_built(detail.days@[i], input.days@[i], detail.plan.id)
}

/// The readings of one day, each with a new identifier.
fn build_items(day_id: EntityId, items: Vec<CreateItemInput>) -> (res: Vec<PlanDayItem>)
    ensures
        res@.len() == items@.len(),
        forall|j: int| 0 <= j < items@.len() ==> #[trigger] item_built(res@[j], items@[j], day_id),
{
    let ghost all = items@;
    let mut rest = items;
    let mut out: Vec<PlanDayItem> = Vec::new();
    while rest.len() > 0
        invariant
            out@.len() + rest@.len() == all.len(),
            rest@ == all.subrange(out@.len() as int, all.len() as int),
            forall|j: int| 0 <= j < out@.len() ==> #[trigger] item_built(out@[j], all[j], day_id),
        decreases rest@.len(),
    {
        let ghost k = out@.len() as int;
        let i = rest.remove(0);
        assert(i == all[k]);
        let item = PlanDayItem::new(day_id, i.book_id, i.from_locator, i.to_locator, i.label);
        out.push(item);
        assert(rest@ =~= all.subrange(out@.len() as int, all.len() as int));
    }
    out
}

impl<R> CreatePlan<R> {
    /// The plan to store: refused when the number of days differs from
    /// the duration, else the plan, its days and their readings, each with
    /// a new identifier and linked to its parent.
    pub fn plan_to_create(&self, input: CreatePlanInput) -> (res: Result<PlanDetail, AppError>)
        ensures
            !day_count_matches(input) ==> (res matches Err(AppError::UnprocessableEntity(m))
                && m@ == day_count_message(input.duration_days as int, input.days@.len() as int)),
            day_count_matches(input) ==> (res matches Ok(d) && plan_built(d, input)),
            res is Ok <==> input.days@.len() == input.duration_days as int,
            res matches Ok(d) ==> d.days@.len() == d.plan.duration_days as int,
    {
        if input.duration_days < 0 || input.days.len() != input.duration_days as usize {
            let a = decimal_text(input.duration_days as i128);
            let b = decimal_text(input.days.len() as i128);
            let mut message = owned("duration_days is ");
            message.append(a.as_str());
            message.append(" but ");
            message.append(b.as_str());
            message.append(" days were provided");
            return Err(AppError::UnprocessableEntity(message));
        }
        let CreatePlanInput { title, description, cover_url, category, duration_days, creator_id, days } = input;
        let plan = ReadingPlan::new(title, description, cover_url, category, duration_days, creator_id);
        let plan_id = plan.id;
        let ghost all = days@;
        let mut rest = days;
        let mut out: Vec<(PlanDay, Vec<PlanDayItem>)> = Vec::new();
        while rest.len() > 0
            invariant
                out@.len() + rest@.len() == all.len(),
                rest@ == all.subrange(out@.len() as int, all.len() as int),
                forall|i: int| 0 <= i < out@.len() ==> #[trigger] day_built(out@[i], all[i], plan_id),
            decreases rest@.len(),
        {
            let ghost k = out@.len() as int;
            let d = rest.remove(0);
            assert(d == all[k]);
            let day = PlanDay::new(plan_id, d.day_number, d.title, d.description);
            let items = build_items(day.id, d.items);
            out.push((day, items));
            assert(day_built(out@[k], all[k], plan_id));
            assert(rest@ =~= all.subrange(out@.len() as int, all.len() as int));
        }
        Ok(PlanDetail { plan, days: out })
    }
}

} // verus!
