use vstd::prelude::*;

use crate::common::ids::EntityId;
use crate::plans::create_plan::{CreateDayInput, CreateItemInput, CreatePlanInput};

verus! {

/// The query of the plan list: an optional category, and whether only
/// official plans are wanted.
pub struct ListPlansQuery {
    pub category: Option<String>,
    pub official_only: Option<bool>,
}

/// One reading of a day in a plan creation request.
pub struct CreateDayItemRequest {
    pub book_id: Option<EntityId>,
    pub from_locator: Option<String>,
    pub to_locator: Option<String>,
    pub label: Option<String>,
}

/// One day in a plan creation request.
pub struct CreateDayRequest {
    pub day_number: i32,
    pub title: Option<String>,
    pub description: Option<String>,
    pub items: Vec<CreateDayItemRequest>,
}

/// The request body that creates a plan.
pub struct CreatePlanRequest {
    pub title: String,
    pub description: Option<String>,
    pub cover_url: Option<String>,
    pub category: Option<String>,
    pub duration_days: i32,
    pub days: Vec<CreateDayRequest>,
}

/// The request body that subscribes to a plan, optionally within a group.
pub struct SubscribeRequest {
    pub group_id: Option<EntityId>,
}

/// The request body that marks a plan day complete.
pub struct MarkDayRequest {
    pub plan_day_id: EntityId,
}

/// The request body that creates a group.
pub struct CreateGroupRequest {
    pub name: Option<String>,
}

/// The request body that joins a group.
pub struct JoinGroupRequest {
    pub invite_code: String,
}

impl ListPlansQuery {
    /// Whether only official plans are wanted; not unless asked.
    pub fn official_only_or_default(&self) -> (res: bool)
        ensures
            res == (self.official_only == Some(true)),
    {
        match self.official_only {
            Some(b) => b,
            None => false,
        }
    }
}

/// `out` carries the fields of `req`.
pub open spec fn item_input_of(out: CreateItemInput, req: CreateDayItemRequest) -> bool {
    out.book_id == req.book_id && out.from_locator == req.from_locator && out.to_locator == req.to_locator
        && out.label == req.label
}

/// `out` carries the fields of `req`, its readings in order.
pub open spec fn day_input_of(out: CreateDayInput, req: CreateDayRequest) -> bool {
    &&& out.day_number == req.day_number
    &&& out.title == req.title
    &&& out.description == req.description
    &&& out.items@.len() == req.items@.len()
    &&& forall|j: int| 0 <= j < req.items@.len() ==> #[trigger] item_input_of(out.items@[j], req.items@[j])
}

/// The readings of a requested day, as use case input.
fn items_input(items: Vec<CreateDayItemRequest>) -> (res: Vec<CreateItemInput>)
    ensures
        res@.len() == items@.len(),
        forall|j: int| 0 <= j < items@.len() ==> #[trigger] item_input_of(res@[j], items@[j]),
{
    let ghost all = items@;
    let mut rest = items;
    let mut out: Vec<CreateItemInput> = Vec::new();
    while rest.len() > 0
        invariant
            out@.len() + rest@.len() == all.len(),
            rest@ == all.subrange(out@.len() as int, all.len() as int),
            forall|j: int| 0 <= j < out@.len() ==> #[trigger] item_input_of(out@[j], all[j]),
        decreases rest@.len(),
    {
        let ghost k = out@.len() as int;
        let i = rest.remove(0);
        assert(i == all[k]);
        out.push(CreateItemInput { book_id: i.book_id, from_locator: i.from_locator, to_locator: i.to_locator, label: i.label });
        assert(rest@ =~= all.subrange(out@.len() as int, all.len() as int));
    }
    out
}

impl CreatePlanRequest {
    /// The use case input for a plan by `creator_id`, with the request's
    /// fields and its days and readings in order.
    pub fn into_input(self, creator_id: EntityId) -> (res: CreatePlanInput)
        ensures
            res.title == self.title,
            res.description == self.description,
            res.cover_url == self.cover_url,
            res.category == self.category,
            res.duration_days == self.duration_days,
            res.creator_id == creator_id,
            res.days@.len() == self.days@.len(),
            forall|i: int| 0 <= i < self.days@.len() ==> #[trigger] day_input_of(res.days@[i], self.days@[i]),
    {
        let CreatePlanRequest { title, description, cover_url, category, duration_days, days } = self;
        let ghost all = days@;
        let mut rest = days;
        let mut out: Vec<CreateDayInput> = Vec::new();
        while rest.len() > 0
            invariant
                out@.len() + rest@.len() == all.len(),
                rest@ == all.subrange(out@.len() as int, all.len() as int),
                forall|i: int| 0 <= i < out@.len() ==> #[trigger] day_input_of(out@[i], all[i]),
            decreases rest@.len(),
        {
            let ghost k = out@.len() as int;
            let d = rest.remove(0);
            assert(d == all[k]);
            let items = items_input(d.items);
            out.push(CreateDayInput { day_number: d.day_number, title: d.title, description: d.description, items });
            assert(day_input_of(out@[k], all[k]));
            assert(rest@ =~= all.subrange(out@.len() as int, all.len() as int));
        }
        CreatePlanInput { title, description, cover_url, category, duration_days, creator_id, days: out }
    }
}

} // verus!
