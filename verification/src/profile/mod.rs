//! User profiles, settings and reading reminders.

pub mod get_profile;
pub mod profile;
pub mod reminder;
pub mod responses;
pub mod set_reminder;
pub mod settings;
pub mod update_profile;
pub mod update_settings;
