use reading_features::common::calendar::CalendarDate;
use reading_features::common::clock::Timestamp;
use reading_features::common::error::AppError;
use reading_features::plans::create_plan::{CreateDayInput, CreateItemInput, CreatePlan, CreatePlanInput};
use reading_features::plans::detail::assemble_plan_detail;
use reading_features::plans::invite::{invite_code_of, new_invite_code};
use reading_features::plans::domain::{
    PlanDay, PlanDayItem, PlanDetail, PlanGroup, PlanGroupMember, PlanProgress, PlanSubscription, ReadingPlan,
    SubscriptionStatus,
};
use reading_features::plans::join_group::{plan_found, subscription_allowed, JoinAction, JoinEvent, JoinGroupFlow};
use reading_features::plans::requests::{CreateDayItemRequest, CreateDayRequest, CreatePlanRequest, ListPlansQuery};
use reading_features::plans::update_progress::{ProgressAction, ProgressEvent, ProgressStage, UpdateProgressFlow};

fn item(label: &str) -> CreateItemInput {
    CreateItemInput { book_id: Some(77), from_locator: None, to_locator: None, label: Some(label.to_string()) }
}

fn day(n: i32, items: Vec<CreateItemInput>) -> CreateDayInput {
    CreateDayInput { day_number: n, title: Some(format!("Day {n}")), description: None, items }
}

fn plan_input(duration_days: i32, days: Vec<CreateDayInput>) -> CreatePlanInput {
    CreatePlanInput {
        title: "Psalms".to_string(),
        description: None,
        cover_url: None,
        category: Some("poetry".to_string()),
        duration_days,
        creator_id: 5,
        days,
    }
}

fn subscription(user_id: u128, plan_id: u128) -> PlanSubscription {
    PlanSubscription {
        id: 1000,
        user_id,
        plan_id,
        group_id: None,
        started_on: CalendarDate::from_ymd(2026, 1, 1).unwrap(),
        current_day: 1,
        status: SubscriptionStatus::Active,
        created_at: Timestamp { secs: 0, nanos: 0 },
    }
}

fn progress_row() -> PlanProgress {
    PlanProgress { id: 55, subscription_id: 1000, plan_day_id: 7, completed_at: Some(Timestamp { secs: 1, nanos: 0 }) }
}

fn detail_with_duration(d: i32) -> PlanDetail {
    let mut p = ReadingPlan::new("t".to_string(), None, None, None, d, 1);
    p.duration_days = d;
    PlanDetail { plan: p, days: vec![] }
}

// ── statuses ─────────────────────────────────────────────

#[test]
fn status_names_round_trip() {
    for s in [
        SubscriptionStatus::Active,
        SubscriptionStatus::Completed,
        SubscriptionStatus::Paused,
        SubscriptionStatus::Abandoned,
    ] {
        assert_eq!(SubscriptionStatus::from_name(s.as_str()).unwrap(), s);
    }
    assert_eq!(SubscriptionStatus::from_name("done").unwrap_err().message, "unknown subscription_status: done");
}

// ── create plan ──────────────────────────────────────────

#[test]
fn create_plan_links_days_and_items() {
    let uc = CreatePlan { repository: () };
    let d = uc
        .plan_to_create(plan_input(2, vec![day(1, vec![item("a"), item("b")]), day(2, vec![])]))
        .unwrap();
    assert_eq!(d.plan.title, "Psalms");
    assert_eq!(d.plan.creator_id, Some(5));
    assert!(!d.plan.is_official);
    assert_eq!(d.days.len(), 2);
    assert_eq!(d.days[0].0.plan_id, d.plan.id);
    assert_eq!(d.days[0].0.day_number, 1);
    assert_eq!(d.days[0].1.len(), 2);
    assert_eq!(d.days[0].1[1].label.as_deref(), Some("b"));
    assert_eq!(d.days[0].1[0].plan_day_id, d.days[0].0.id);
    assert_eq!(d.days[1].1.len(), 0);
}

#[test]
fn create_plan_refuses_day_count_mismatch() {
    let uc = CreatePlan { repository: () };
    match uc.plan_to_create(plan_input(3, vec![day(1, vec![])])) {
        Err(AppError::UnprocessableEntity(m)) => assert_eq!(m, "duration_days is 3 but 1 days were provided"),
        _ => panic!("expected refusal"),
    }
    match uc.plan_to_create(plan_input(-1, vec![])) {
        Err(AppError::UnprocessableEntity(m)) => assert_eq!(m, "duration_days is -1 but 0 days were provided"),
        _ => panic!("expected refusal"),
    }
}

#[test]
fn create_plan_request_maps_days_in_order() {
    let req = CreatePlanRequest {
        title: "T".to_string(),
        description: Some("D".to_string()),
        cover_url: None,
        category: None,
        duration_days: 1,
        days: vec![CreateDayRequest {
            day_number: 1,
            title: None,
            description: None,
            items: vec![CreateDayItemRequest { book_id: None, from_locator: Some("x".to_string()), to_locator: None, label: None }],
        }],
    };
    let input = req.into_input(9);
    assert_eq!(input.creator_id, 9);
    assert_eq!(input.days.len(), 1);
    assert_eq!(input.days[0].items[0].from_locator.as_deref(), Some("x"));
    let uc = CreatePlan { repository: () };
    assert!(uc.plan_to_create(input).is_ok());
}

#[test]
fn list_query_defaults_to_all_plans() {
    assert!(!ListPlansQuery { category: None, official_only: None }.official_only_or_default());
    assert!(ListPlansQuery { category: None, official_only: Some(true) }.official_only_or_default());
}

// ── plan detail ──────────────────────────────────────────

#[test]
fn detail_groups_items_by_day_in_order() {
    let plan = ReadingPlan::new("t".to_string(), None, None, None, 2, 1);
    let d1 = PlanDay { id: 1, plan_id: plan.id, day_number: 1, title: None, description: None };
    let d2 = PlanDay { id: 2, plan_id: plan.id, day_number: 2, title: None, description: None };
    let it = |id: u128, day: u128| PlanDayItem { id, plan_day_id: day, book_id: None, from_locator: None, to_locator: None, label: None };
    let detail = assemble_plan_detail(plan, vec![d1, d2], vec![it(10, 2), it(11, 1), it(12, 2), it(13, 9)]);
    assert_eq!(detail.days.len(), 2);
    let ids = |v: &Vec<PlanDayItem>| v.iter().map(|i| i.id).collect::<Vec<_>>();
    assert_eq!(ids(&detail.days[0].1), vec![11]);
    assert_eq!(ids(&detail.days[1].1), vec![10, 12]);
}

#[test]
fn detail_gives_repeated_day_no_items() {
    let plan = ReadingPlan::new("t".to_string(), None, None, None, 2, 1);
    let d = PlanDay { id: 1, plan_id: plan.id, day_number: 1, title: None, description: None };
    let it = PlanDayItem { id: 5, plan_day_id: 1, book_id: None, from_locator: None, to_locator: None, label: None };
    let detail = assemble_plan_detail(plan, vec![d.clone(), d], vec![it]);
    assert_eq!(detail.days[0].1.len(), 1);
    assert_eq!(detail.days[1].1.len(), 0);
}

// ── update progress ──────────────────────────────────────

#[test]
fn progress_flow_advances_day_before_completion() {
    let f = UpdateProgressFlow::new(3, 1000, 7);
    let (f, a) = f.step(ProgressEvent::Begin);
    assert!(matches!(a, ProgressAction::LoadSubscription(1000)));
    let (f, a) = f.step(ProgressEvent::SubscriptionLoaded(Some(subscription(3, 20))));
    assert!(matches!(a, ProgressAction::LoadPlan(20)));
    let (f, a) = f.step(ProgressEvent::PlanLoaded(Some(detail_with_duration(5))));
    assert!(matches!(a, ProgressAction::MarkDayComplete(1000, 7)));
    let (f, a) = f.step(ProgressEvent::DayMarked(progress_row()));
    assert!(matches!(a, ProgressAction::CountCompletedDays(1000)));
    let (f, a) = f.step(ProgressEvent::CompletedCounted(2));
    assert!(matches!(a, ProgressAction::AdvanceCurrentDay(1000, 3)));
    let (f, a) = f.step(ProgressEvent::SubscriptionWritten);
    assert!(matches!(f.stage, ProgressStage::Finished));
    match a {
        ProgressAction::Respond(Ok(p)) => assert_eq!(p.id, 55),
        other => panic!("unexpected {:?}", other),
    }
}

#[test]
fn progress_flow_completes_at_duration() {
    let f = UpdateProgressFlow::new(3, 1000, 7);
    let (f, _) = f.step(ProgressEvent::Begin);
    let (f, _) = f.step(ProgressEvent::SubscriptionLoaded(Some(subscription(3, 20))));
    let (f, _) = f.step(ProgressEvent::PlanLoaded(Some(detail_with_duration(5))));
    let (f, _) = f.step(ProgressEvent::DayMarked(progress_row()));
    let (_, a) = f.step(ProgressEvent::CompletedCounted(5));
    assert!(matches!(a, ProgressAction::SetStatus(1000, SubscriptionStatus::Completed)));
}

#[test]
fn progress_flow_refuses_foreign_and_missing() {
    let (f, _) = UpdateProgressFlow::new(3, 1000, 7).step(ProgressEvent::Begin);
    let (_, a) = f.step(ProgressEvent::SubscriptionLoaded(Some(subscription(4, 20))));
    assert!(matches!(a, ProgressAction::Respond(Err(AppError::Forbidden))));
    let (f, _) = UpdateProgressFlow::new(3, 1000, 7).step(ProgressEvent::Begin);
    let (_, a) = f.step(ProgressEvent::SubscriptionLoaded(None));
    assert!(matches!(a, ProgressAction::Respond(Err(AppError::NotFound(ref m))) if m == "subscription"));
    let (f, _) = UpdateProgressFlow::new(3, 1000, 7).step(ProgressEvent::Begin);
    let (f, _) = f.step(ProgressEvent::SubscriptionLoaded(Some(subscription(3, 20))));
    let (_, a) = f.step(ProgressEvent::PlanLoaded(None));
    assert!(matches!(a, ProgressAction::Respond(Err(AppError::NotFound(ref m))) if m == "plan"));
}

// ── groups ───────────────────────────────────────────────

fn group() -> PlanGroup {
    let mut g = PlanGroup::new(20, 1);
    g.id = 300;
    g.invite_code = Some("abcd1234".to_string());
    g
}

#[test]
fn join_subscribes_when_not_yet_subscribed() {
    let f = JoinGroupFlow::new(3, "abcd1234".to_string());
    let (f, a) = f.step(JoinEvent::Begin);
    assert!(matches!(a, JoinAction::FindGroup(ref c) if c == "abcd1234"));
    let (f, a) = f.step(JoinEvent::GroupLoaded(Some(group())));
    assert!(matches!(a, JoinAction::Join(300, 3)));
    let member = PlanGroupMember::new(300, 3);
    let (f, a) = f.step(JoinEvent::Joined(member));
    assert!(matches!(a, JoinAction::LoadSubscription(3, 20)));
    let (f, a) = f.step(JoinEvent::SubscriptionLoaded(None));
    assert!(matches!(a, JoinAction::Subscribe(3, 20, Some(300))));
    let (_, a) = f.step(JoinEvent::Subscribed);
    assert!(matches!(a, JoinAction::Respond(Ok(m)) if m.group_id == 300 && m.user_id == 3));
}

#[test]
fn join_keeps_existing_subscription_and_refuses_unknown_code() {
    let (f, _) = JoinGroupFlow::new(3, "abcd1234".to_string()).step(JoinEvent::Begin);
    let (f, _) = f.step(JoinEvent::GroupLoaded(Some(group())));
    let (f, _) = f.step(JoinEvent::Joined(PlanGroupMember::new(300, 3)));
    let (_, a) = f.step(JoinEvent::SubscriptionLoaded(Some(subscription(3, 20))));
    assert!(matches!(a, JoinAction::Respond(Ok(_))));
    let (f, _) = JoinGroupFlow::new(3, "zzzz".to_string()).step(JoinEvent::Begin);
    let (_, a) = f.step(JoinEvent::GroupLoaded(None));
    assert!(matches!(a, JoinAction::Respond(Err(AppError::NotFound(ref m))) if m == "plan group"));
}

#[test]
fn second_subscription_is_refused() {
    assert!(subscription_allowed(&None).is_ok());
    match subscription_allowed(&Some(subscription(1, 2))) {
        Err(AppError::UnprocessableEntity(m)) => assert_eq!(m, "already subscribed to this plan"),
        _ => panic!("expected refusal"),
    }
    assert!(matches!(plan_found(None), Err(AppError::NotFound(ref m)) if m == "plan"));
}

#[test]
fn new_subscription_starts_active_at_day_one() {
    let s = PlanSubscription::new(1, 2, Some(3));
    assert_eq!(s.current_day, 1);
    assert_eq!(s.status, SubscriptionStatus::Active);
    assert_eq!(s.group_id, Some(3));
    assert!(PlanProgress::new(1, 2).completed_at.is_none());
}

#[test]
fn stored_subscriptions_are_read_back() {
    let day = CalendarDate { year: 2025, month: 3, day: 1 };
    let at = Timestamp { secs: 5, nanos: 0 };
    let sub = PlanSubscription::from_stored(1, 2, 3, None, day, None, "paused", at).unwrap();
    assert_eq!(sub.current_day, 1);
    assert_eq!(sub.status, SubscriptionStatus::Paused);
    assert_eq!(sub.started_on, day);
    let sub = PlanSubscription::from_stored(1, 2, 3, Some(4), day, Some(6), "active", at).unwrap();
    assert_eq!(sub.current_day, 6);
    assert_eq!(sub.group_id, Some(4));
    let err = PlanSubscription::from_stored(1, 2, 3, None, day, Some(2), "done", at).unwrap_err();
    assert_eq!(err.message, "unknown subscription_status: done");
}

#[test]
fn invite_codes_are_the_first_eight_hex_digits() {
    assert_eq!(invite_code_of(0x0123_4567_89ab_cdef_fedc_ba98_7654_3210), "01234567");
    assert_eq!(invite_code_of(0xdead_beef_0000_0000_0000_0000_0000_0000), "deadbeef");
    assert_eq!(invite_code_of(0), "00000000");
    let code = new_invite_code();
    assert_eq!(code.len(), 8);
    assert!(code.chars().all(|c| c.is_ascii_digit() || ('a'..='f').contains(&c)));
}

#[test]
fn progress_flow_takes_any_count_below_duration() {
    let start = || {
        let f = UpdateProgressFlow::new(3, 1000, 7);
        let (f, _) = f.step(ProgressEvent::Begin);
        let (f, _) = f.step(ProgressEvent::SubscriptionLoaded(Some(subscription(3, 20))));
        let (f, _) = f.step(ProgressEvent::PlanLoaded(Some(detail_with_duration(5))));
        let (f, _) = f.step(ProgressEvent::DayMarked(progress_row()));
        f
    };
    let (_, a) = start().step(ProgressEvent::CompletedCounted(-3));
    assert!(matches!(a, ProgressAction::AdvanceCurrentDay(1000, -2)));
    let (_, a) = start().step(ProgressEvent::CompletedCounted(-4_294_967_296));
    assert!(matches!(a, ProgressAction::AdvanceCurrentDay(1000, 1)));
}
