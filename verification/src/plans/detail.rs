use vstd::prelude::*;

use crate::common::ids::EntityId;
use crate::plans::domain::{PlanDay, PlanDayItem, PlanDetail, ReadingPlan};

verus! {

/// The readings of `items` that belong to day `day_id`, in order.
pub open spec fn items_of_day(items: Seq<PlanDayItem>, day_id: EntityId) -> Seq<PlanDayItem> {
    items.filter(|it: PlanDayItem| it.plan_day_id == day_id)
}

/// The readings of `items` that belong to another day than `day_id`.
pub open spec fn items_not_of_day(items: Seq<PlanDayItem>, day_id: EntityId) -> Seq<PlanDayItem> {
    items.filter(|it: PlanDayItem| it.plan_day_id != day_id)
}

/// The readings that day `i` of `days` gets: those with its identifier,
/// in their order, unless an earlier day has the same identifier, in
/// which case that earlier day took them and day `i` gets none.
pub open spec fn day_items(items: Seq<PlanDayItem>, days: Seq<PlanDay>, i: int) -> Seq<PlanDayItem> {
    if exists|j: int| 0 <= j < i && #[trigger] days[j].id == days[i].id {
        Seq::empty()
    } else {
        items_of_day(items, days[i].id)
    }
}

/// The readings not yet given to any of the first `n` days.
pub open spec fn items_left(items: Seq<PlanDayItem>, days: Seq<PlanDay>, n: nat) -> Seq<PlanDayItem>
    decreases n,
{
    if n == 0 {
        items
    } else {
        items_not_of_day(items_left(items, days, (n - 1) as nat), days[n - 1].id)
    }
}

/// Splits `items` into those of day `day_id` and the others, each in
/// order.
fn split_by_day(items: Vec<PlanDayItem>, day_id: EntityId) -> (res: (Vec<PlanDayItem>, Vec<PlanDayItem>))
    ensures
        res.0@ == items_of_day(items@, day_id),
        res.1@ == items_not_of_day(items@, day_id),
{
    let ghost all = items@;
    let ghost p = |it: PlanDayItem| it.plan_day_id == day_id;
    let ghost q = |it: PlanDayItem| it.plan_day_id != day_id;
    let mut rest = items;
    let mut mine: Vec<PlanDayItem> = Vec::new();
    let mut others: Vec<PlanDayItem> = Vec::new();
    let ghost mut k: int = 0;
    proof {
        assert(all.take(0) =~= Seq::<PlanDayItem>::empty());
        reveal(Seq::filter);
    }
    while rest.len() > 0
        invariant
            0 <= k <= all.len(),
            rest@ == all.skip(k),
            mine@ == all.take(k).filter(p),
            others@ == all.take(k).filter(q),
            p == (|it: PlanDayItem| it.plan_day_id == day_id),
            q == (|it: PlanDayItem| it.plan_day_id != day_id),
        decreases rest@.len(),
    {
        let x = rest.remove(0);
        proof {
            assert(x == all[k]);
            assert(all.take(k + 1) =~= all.take(k).push(x));
            all.take(k).lemma_filter_push(x, p);
            all.take(k).lemma_filter_push(x, q);
        }
        if x.plan_day_id == day_id {
            mine.push(x);
        } else {
            others.push(x);
        }
        proof {
            k = k + 1;
            assert(rest@ =~= all.skip(k));
        }
    }
    proof {
        assert(all.take(k) =~= all);
    }
    (mine, others)
}

/// A plan with its days in the given order, each day with the readings
/// that belong to it in their given order. Every reading goes to the
/// first day with its day identifier; a later day with the same
/// identifier gets none.
pub fn assemble_plan_detail(plan: ReadingPlan, days: Vec<PlanDay>, items: Vec<PlanDayItem>) -> (res: PlanDetail)
    ensures
        res.plan == plan,
        res.days@.len() == days@.len(),
        forall|i: int| 0 <= i < days@.len() ==> #[trigger] res.days@[i].0 == days@[i]
            && res.days@[i].1@ == day_items(items@, days@, i),
{
    let ghost all_days = days@;
    let ghost all_items = items@;
    let mut rest_days = days;
    let mut left = items;
    let mut out: Vec<(PlanDay, Vec<PlanDayItem>)> = Vec::new();
    while rest_days.len() > 0
        invariant
            out@.len() + rest_days@.len() == all_days.len(),
            rest_days@ == all_days.subrange(out@.len() as int, all_days.len() as int),
            left@ == items_left(all_items, all_days, out@.len() as nat),
            forall|i: int| 0 <= i < out@.len() ==> #[trigger] out@[i].0 == all_days[i]
                && out@[i].1@ == items_of_day(items_left(all_items, all_days, i as nat), all_days[i].id),
        decreases rest_days@.len(),
    {
        let ghost k = out@.len();
        let day = rest_days.remove(0);
        assert(day == all_days[k as int]);
        let (mine, others) = split_by_day(left, day.id);
        let ghost prev = out@;
        let ghost mine_view = mine@;
        out.push((day, mine));
        assert(out@[k as int].1@ == mine_view);
        assert(forall|i: int| 0 <= i < k ==> out@[i] == prev[i]);
        left = others;
        assert(items_left(all_items, all_days, (k + 1) as nat)
            == items_not_of_day(items_left(all_items, all_days, k as nat), all_days[k as int].id));
        assert(rest_days@ =~= all_days.subrange(out@.len() as int, all_days.len() as int));
        assert forall|i: int| 0 <= i < out@.len() implies #[trigger] out@[i].0 == all_days[i]
            && out@[i].1@ == items_of_day(items_left(all_items, all_days, i as nat), all_days[i].id) by {
            if i < k {
                assert(out@[i] == prev[i]);
            }
        }
    }
    proof {
        assert forall|i: int| 0 <= i < all_days.len() implies
            items_of_day(items_left(all_items, all_days, i as nat), all_days[i].id) == day_items(all_items, all_days, i) by {
            lemma_items_left_day(all_items, all_days, i);
        }
    }
    PlanDetail { plan, days: out }
}

/// Leaving out another day's readings does not change which readings a
/// day has.
proof fn lemma_other_day_removed(s: Seq<PlanDayItem>, day: EntityId, other: EntityId)
    requires
        day != other,
    ensures
        items_of_day(items_not_of_day(s, other), day) == items_of_day(s, day),
    decreases s.len(),
{
    let p = |it: PlanDayItem| it.plan_day_id == day;
    let q = |it: PlanDayItem| it.plan_day_id != other;
    if s.len() == 0 {
        reveal(Seq::filter);
        assert(s.filter(q).len() == 0);
        assert(s.filter(q).filter(p) =~= s.filter(p));
    } else {
        let init = s.drop_last();
        let x = s.last();
        assert(s =~= init.push(x));
        lemma_other_day_removed(init, day, other);
        init.lemma_filter_push(x, q);
        init.lemma_filter_push(x, p);
        if q(x) {
            init.filter(q).lemma_filter_push(x, p);
        }
    }
}

/// Leaving out a day's readings leaves none of that day.
proof fn lemma_day_removed(s: Seq<PlanDayItem>, day: EntityId)
    ensures
        items_of_day(items_not_of_day(s, day), day) =~= Seq::<PlanDayItem>::empty(),
    decreases s.len(),
{
    let p = |it: PlanDayItem| it.plan_day_id == day;
    let q = |it: PlanDayItem| it.plan_day_id != day;
    if s.len() == 0 {
        reveal(Seq::filter);
        assert(s.filter(q).len() == 0);
        assert(s.filter(q).filter(p).len() == 0);
    } else {
        let init = s.drop_last();
        let x = s.last();
        assert(s =~= init.push(x));
        lemma_day_removed(init, day);
        init.lemma_filter_push(x, q);
        if q(x) {
            init.filter(q).lemma_filter_push(x, p);
        }
    }
}

/// Once one of the first `n` days has `day`'s identifier, no reading of
/// `day` is left.
proof fn lemma_items_left_took_day(items: Seq<PlanDayItem>, days: Seq<PlanDay>, n: nat, j: int, day: EntityId)
    requires
        n <= days.len(),
        0 <= j < n,
        days[j].id == day,
    ensures
        items_of_day(items_left(items, days, n), day) =~= Seq::<PlanDayItem>::empty(),
    decreases n,
{
    let prev = items_left(items, days, (n - 1) as nat);
    if days[n - 1].id == day {
        lemma_day_removed(prev, day);
    } else {
        lemma_items_left_took_day(items, days, (n - 1) as nat, j, day);
        lemma_other_day_removed(prev, day, days[n - 1].id);
    }
}

/// The readings left for day `i` when its turn comes are `day_items`.
proof fn lemma_items_left_day(items: Seq<PlanDayItem>, days: Seq<PlanDay>, i: int)
    requires
        0 <= i < days.len(),
    ensures
        items_of_day(items_left(items, days, i as nat), days[i].id) == day_items(items, days, i),
{
    if exists|j: int| 0 <= j < i && #[trigger] days[j].id == days[i].id {
        let j = choose|j: int| 0 <= j < i && #[trigger] days[j].id == days[i].id;
        lemma_items_left_took_day(items, days, i as nat, j, days[i].id);
    } else {
        lemma_items_left_keep_day(items, days, i as nat, days[i].id);
    }
}

/// Before any of the first `n` days has `day`'s identifier, the readings
/// left for `day` are all of its readings.
proof fn lemma_items_left_keep_day(items: Seq<PlanDayItem>, days: Seq<PlanDay>, n: nat, day: EntityId)
    requires
        n <= days.len(),
        forall|j: int| 0 <= j < n ==> days[j].id != day,
    ensures
        items_of_day(items_left(items, days, n), day) == items_of_day(items, day),
    decreases n,
{
    if n > 0 {
        lemma_items_left_keep_day(items, days, (n - 1) as nat, day);
        lemma_other_day_removed(items_left(items, days, (n - 1) as nat), day, days[n - 1].id);
    }
}

/// Where the days have distinct identifiers, each day of an assembled plan
/// gets exactly the readings with its identifier, in their given order.
pub proof fn law_each_day_gets_its_items(items: Seq<PlanDayItem>, days: Seq<PlanDay>, i: int)
    requires
        0 <= i < days.len(),
        forall|a: int, b: int| 0 <= a < b < days.len() ==> days[a].id != days[b].id,
    ensures
        day_items(items, days, i) == items_of_day(items, days[i].id),
{
    assert(!exists|j: int| 0 <= j < i && #[trigger] days[j].id == days[i].id);
}

} // verus!
