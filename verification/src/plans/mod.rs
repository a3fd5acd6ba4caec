//! Reading plans: plans of days and readings, subscriptions and their
//! progress, and reading groups.

pub mod create_plan;
pub mod detail;
pub mod domain;
pub mod invite;
pub mod join_group;
pub mod requests;
pub mod update_progress;
