use vstd::prelude::*;

use crate::common::clock::{now, Timestamp};
use crate::common::ids::EntityId;
use crate::common::text::{owned, same_text};

verus! {

/// The bits of the single-precision number 1.0 (IEEE 754).
pub const ONE_F32_BITS: u32 = 0x3F80_0000;

/// Colour scheme of the application.
#[derive(Clone, Copy, Debug, PartialEq, Eq, Structural)]
pub enum AppTheme {
    Light,
    Dark,
}

impl Default for AppTheme {
    fn default() -> (res: Self)
        ensures
            res == AppTheme::Light,
    {
        AppTheme::Light
    }
}

/// The name under which a theme is stored and shown.
pub open spec fn app_theme_name(t: AppTheme) -> Seq<char> {
    match t {
        AppTheme::Light => "light"@,
        AppTheme::Dark => "dark"@,
    }
}

/// The theme read from a stored name: "dark" is dark, any other name
/// light.
pub open spec fn stored_app_theme(s: Seq<char>) -> AppTheme {
    if s == "dark"@ {
        AppTheme::Dark
    } else {
        AppTheme::Light
    }
}

impl AppTheme {
    /// The name under which the theme is stored and shown.
    pub fn as_str(&self) -> (res: &'static str)
        ensures
            res@ == app_theme_name(*self),
    {
        match self {
            AppTheme::Light => "light",
            AppTheme::Dark => "dark",
        }
    }

    /// The theme stored under `s`: "dark" is dark, any other name light.
    pub fn from_stored(s: &str) -> (res: AppTheme)
        ensures
            res == stored_app_theme(s@),
    {
        if same_text(s, "dark") {
            AppTheme::Dark
        } else {
            AppTheme::Light
        }
    }
}

/// The theme read back from its stored name is the one written.
pub proof fn law_app_theme_name_round_trip(t: AppTheme)
    ensures
        stored_app_theme(app_theme_name(t)) == t,
{
    reveal_strlit("light");
    reveal_strlit("dark");
    assert("light"@.len() != "dark"@.len());
}

/// Colour scheme of the reading view.
#[derive(Clone, Copy, Debug, PartialEq, Eq, Structural)]
pub enum ReaderTheme {
    Light,
    Dark,
}

impl Default for ReaderTheme {
    fn default() -> (res: Self)
        ensures
            res == ReaderTheme::Light,
    {
        ReaderTheme::Light
    }
}

/// The name under which a theme is stored and shown.
pub open spec fn reader_theme_name(t: ReaderTheme) -> Seq<char> {
    match t {
        ReaderTheme::Light => "light"@,
        ReaderTheme::Dark => "dark"@,
    }
}

/// The theme read from a stored name: "dark" is dark, any other name
/// light.
pub open spec fn stored_reader_theme(s: Seq<char>) -> ReaderTheme {
    if s == "dark"@ {
        ReaderTheme::Dark
    } else {
        ReaderTheme::Light
    }
}

impl ReaderTheme {
    /// The name under which the theme is stored and shown.
    pub fn as_str(&self) -> (res: &'static str)
        ensures
            res@ == reader_theme_name(*self),
    {
        match self {
            ReaderTheme::Light => "light",
            ReaderTheme::Dark => "dark",
        }
    }

    /// The theme stored under `s`: "dark" is dark, any other name light.
    pub fn from_stored(s: &str) -> (res: ReaderTheme)
        ensures
            res == stored_reader_theme(s@),
    {
        if same_text(s, "dark") {
            ReaderTheme::Dark
        } else {
            ReaderTheme::Light
        }
    }
}

/// The theme read back from its stored name is the one written.
pub proof fn law_reader_theme_name_round_trip(t: ReaderTheme)
    ensures
        stored_reader_theme(reader_theme_name(t)) == t,
{
    reveal_strlit("light");
    reveal_strlit("dark");
    assert("light"@.len() != "dark"@.len());
}

/// A user's preferences. The speech speed and pitch are single-precision
/// numbers, held here by their IEEE 754 bits; nothing here computes with
/// them.
#[derive(Clone, Debug)]
pub struct UserSettings {
    pub user_id: EntityId,
    pub app_theme: AppTheme,
    pub reader_theme: ReaderTheme,
    pub reader_font_family: Option<String>,
    pub reader_font_size: i16,
    pub default_voice_id: Option<EntityId>,
    pub default_speed_bits: u32,
    pub default_pitch_bits: u32,
    pub sleep_timer_minutes: Option<i16>,
    pub daily_goal_minutes: i16,
    pub activity_sharing: bool,
    pub contact_matching_opt_in: bool,
    pub updated_at: Timestamp,
}

impl UserSettings {
    /// Whether these are the defaults for `user_id`, whatever their
    /// update time.
    pub open spec fn is_default_for(self, user_id: EntityId) -> bool {
        &&& self.user_id == user_id
        &&& self.app_theme == AppTheme::Light
        &&& self.reader_theme == ReaderTheme::Light
        &&& self.reader_font_family matches Some(f) && f@ == "Source Serif 4"@
        &&& self.reader_font_size == 16
        &&& self.default_voice_id is None
        &&& self.default_speed_bits == ONE_F32_BITS
        &&& self.default_pitch_bits == ONE_F32_BITS
        &&& self.sleep_timer_minutes == Some(30i16)
        &&& self.daily_goal_minutes == 15
        &&& self.activity_sharing
        &&& !self.contact_matching_opt_in
    }

    /// The default settings for `user_id`, stamped now: light themes,
    /// Source Serif 4 at size 16, normal speed and pitch, a 30-minute sleep
    /// timer, a 15-minute daily goal, activity shared, no contact matching.
    pub fn new(user_id: EntityId) -> (res: UserSettings)
        ensures
            res.is_default_for(user_id),
    {
        UserSettings {
            user_id,
            app_theme: AppTheme::default(),
            reader_theme: ReaderTheme::default(),
            reader_font_family: Some(owned("Source Serif 4")),
            reader_font_size: 16,
            default_voice_id: None,
            default_speed_bits: ONE_F32_BITS,
            default_pitch_bits: ONE_F32_BITS,
            sleep_timer_minutes: Some(30),
            daily_goal_minutes: 15,
            activity_sharing: true,
            contact_matching_opt_in: false,
            updated_at: now(),
        }
    }
}

} // verus!
