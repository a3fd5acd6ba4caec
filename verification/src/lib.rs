//! Domain logic of a reading application: reading streaks and daily
//! activity, reading progress and sessions, reading plans, user profiles,
//! settings and reminders, and text-to-speech voices.

pub mod common;
pub mod plans;
pub mod profile;
pub mod reader;
pub mod streaks;
pub mod tts;
