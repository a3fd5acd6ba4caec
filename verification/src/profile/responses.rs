use vstd::prelude::*;

use crate::common::calendar::iso_text;
use crate::common::clock::{two_digits, Timestamp};
use crate::common::ids::EntityId;
use crate::common::text::owned;
use crate::profile::profile::{visibility_name, Profile};
use crate::profile::reminder::{days_mask, Reminder};
use crate::profile::settings::{app_theme_name, reader_theme_name, UserSettings};
use crate::profile::update_profile::UpdateProfileInput;
use crate::profile::update_settings::UpdateSettingsInput;

verus! {

/// The request body that changes a profile.
pub struct UpdateProfileRequest {
    pub bio: Option<String>,
    pub pronouns: Option<String>,
    pub location: Option<String>,
    pub banner_url: Option<String>,
    pub visibility: Option<String>,
    pub favorite_genres: Option<String>,
    pub reading_since: Option<String>,
}

/// The request body that changes settings; speed and pitch by their IEEE
/// 754 single-precision bits.
pub struct UpdateSettingsRequest {
    pub app_theme: Option<String>,
    pub reader_theme: Option<String>,
    pub reader_font_family: Option<String>,
    pub reader_font_size: Option<i16>,
    pub default_speed_bits: Option<u32>,
    pub default_pitch_bits: Option<u32>,
    pub sleep_timer_minutes: Option<i16>,
    pub daily_goal_minutes: Option<i16>,
    pub activity_sharing: Option<bool>,
    pub contact_matching_opt_in: Option<bool>,
}

/// A profile as the client sees it.
pub struct ProfileResponse {
    pub user_id: EntityId,
    pub bio: Option<String>,
    pub pronouns: Option<String>,
    pub location: Option<String>,
    pub banner_url: Option<String>,
    pub visibility: String,
    pub favorite_genres: Option<String>,
    pub reading_since: Option<String>,
    pub followers_count: i32,
    pub friends_count: i32,
    pub created_at: Timestamp,
    pub updated_at: Timestamp,
}

/// Settings as the client sees them.
pub struct SettingsResponse {
    pub user_id: EntityId,
    pub app_theme: String,
    pub reader_theme: String,
    pub reader_font_family: Option<String>,
    pub reader_font_size: i16,
    pub default_speed_bits: u32,
    pub default_pitch_bits: u32,
    pub sleep_timer_minutes: Option<i16>,
    pub daily_goal_minutes: i16,
    pub activity_sharing: bool,
    pub contact_matching_opt_in: bool,
    pub updated_at: Timestamp,
}

/// A reminder as the client sees it.
pub struct ReminderResponse {
    pub id: EntityId,
    pub user_id: EntityId,
    pub time_local: String,
    pub days_of_week: i16,
    pub enabled: bool,
    pub created_at: Timestamp,
}

impl UpdateProfileRequest {
    /// The use case input with the request's fields.
    pub fn into_input(self) -> (res: UpdateProfileInput)
        ensures
            res == (UpdateProfileInput {
                bio: self.bio,
                pronouns: self.pronouns,
                location: self.location,
                banner_url: self.banner_url,
                visibility: self.visibility,
                favorite_genres: self.favorite_genres,
                reading_since: self.reading_since,
            }),
    {
        UpdateProfileInput {
            bio: self.bio,
            pronouns: self.pronouns,
            location: self.location,
            banner_url: self.banner_url,
            visibility: self.visibility,
            favorite_genres: self.favorite_genres,
            reading_since: self.reading_since,
        }
    }
}

impl UpdateSettingsRequest {
    /// The use case input with the request's fields.
    pub fn into_input(self) -> (res: UpdateSettingsInput)
        ensures
            res == (UpdateSettingsInput {
                app_theme: self.app_theme,
                reader_theme: self.reader_theme,
                reader_font_family: self.reader_font_family,
                reader_font_size: self.reader_font_size,
                default_speed_bits: self.default_speed_bits,
                default_pitch_bits: self.default_pitch_bits,
                sleep_timer_minutes: self.sleep_timer_minutes,
                daily_goal_minutes: self.daily_goal_minutes,
                activity_sharing: self.activity_sharing,
                contact_matching_opt_in: self.contact_matching_opt_in,
            }),
    {
        UpdateSettingsInput {
            app_theme: self.app_theme,
            reader_theme: self.reader_theme,
            reader_font_family: self.reader_font_family,
            reader_font_size: self.reader_font_size,
            default_speed_bits: self.default_speed_bits,
            default_pitch_bits: self.default_pitch_bits,
            sleep_timer_minutes: self.sleep_timer_minutes,
            daily_goal_minutes: self.daily_goal_minutes,
            activity_sharing: self.activity_sharing,
            contact_matching_opt_in: self.contact_matching_opt_in,
        }
    }
}

impl ProfileResponse {
    /// The client's view of `p`: its fields, the visibility by name and the
    /// reading start as `YYYY-MM-DD`.
    pub fn from_profile(p: Profile) -> (res: ProfileResponse)
        requires
            p.reading_since is Some ==> p.reading_since->0.wf(),
        ensures
            res.user_id == p.user_id,
            res.bio == p.bio,
            res.pronouns == p.pronouns,
            res.location == p.location,
            res.banner_url == p.banner_url,
            res.visibility@ == visibility_name(p.visibility),
            res.favorite_genres == p.favorite_genres,
            res.reading_since is Some == p.reading_since is Some,
            p.reading_since is Some ==> res.reading_since->0@ == iso_text(p.reading_since->0),
            res.followers_count == p.followers_count,
            res.friends_count == p.friends_count,
            res.created_at == p.created_at,
            res.updated_at == p.updated_at,
    {
        let visibility = owned(p.visibility.as_str());
        let reading_since = match p.reading_since {
            Some(d) => Some(d.to_iso_string()),
            None => None,
        };
        ProfileResponse {
            user_id: p.user_id,
            bio: p.bio,
            pronouns: p.pronouns,
            location: p.location,
            banner_url: p.banner_url,
            visibility,
            favorite_genres: p.favorite_genres,
            reading_since,
            followers_count: p.followers_count,
            friends_count: p.friends_count,
            created_at: p.created_at,
            updated_at: p.updated_at,
        }
    }
}

impl SettingsResponse {
    /// The client's view of `s`: its fields with the themes by name; the
    /// default voice is not shown.
    pub fn from_settings(s: UserSettings) -> (res: SettingsResponse)
        ensures
            res.user_id == s.user_id,
            res.app_theme@ == app_theme_name(s.app_theme),
            res.reader_theme@ == reader_theme_name(s.reader_theme),
            res.reader_font_family == s.reader_font_family,
            res.reader_font_size == s.reader_font_size,
            res.default_speed_bits == s.default_speed_bits,
            res.default_pitch_bits == s.default_pitch_bits,
            res.sleep_timer_minutes == s.sleep_timer_minutes,
            res.daily_goal_minutes == s.daily_goal_minutes,
            res.activity_sharing == s.activity_sharing,
            res.contact_matching_opt_in == s.contact_matching_opt_in,
            res.updated_at == s.updated_at,
    {
        let app_theme = owned(s.app_theme.as_str());
        let reader_theme = owned(s.reader_theme.as_str());
        SettingsResponse {
            user_id: s.user_id,
            app_theme,
            reader_theme,
            reader_font_family: s.reader_font_family,
            reader_font_size: s.reader_font_size,
            default_speed_bits: s.default_speed_bits,
            default_pitch_bits: s.default_pitch_bits,
            sleep_timer_minutes: s.sleep_timer_minutes,
            daily_goal_minutes: s.daily_goal_minutes,
            activity_sharing: s.activity_sharing,
            contact_matching_opt_in: s.contact_matching_opt_in,
            updated_at: s.updated_at,
        }
    }
}

impl ReminderResponse {
    /// The client's view of `r`: the time as `HH:MM` and the days as bits;
    /// its kind is not shown.
    pub fn from_reminder(r: Reminder) -> (res: ReminderResponse)
        requires
            r.time_local.wf(),
        ensures
            res.id == r.id,
            res.user_id == r.user_id,
            res.time_local@ == two_digits(r.time_local.hour as int) + seq![':'] + two_digits(r.time_local.minute as int),
            res.days_of_week == days_mask(r.days_of_week),
            res.enabled == r.enabled,
            res.created_at == r.created_at,
    {
        ReminderResponse {
            id: r.id,
            user_id: r.user_id,
            time_local: r.time_local.to_hh_mm(),
            days_of_week: r.days_of_week.to_bits(),
            enabled: r.enabled,
            created_at: r.created_at,
        }
    }
}

} // verus!
