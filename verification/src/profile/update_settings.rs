use vstd::prelude::*;

use crate::common::clock::{now, Timestamp};
use crate::common::error::AppError;
use crate::common::ids::EntityId;
use crate::common::text::same_text;
use crate::profile::settings::{app_theme_name, reader_theme_name, AppTheme, ReaderTheme, UserSettings};

verus! {

/// A change to a user's settings; each field left `None` keeps its value.
/// Speed and pitch are given by their IEEE 754 single-precision bits.
pub struct UpdateSettingsInput {
    pub app_theme: Option<String>,
    pub reader_theme: Option<String>,
    pub reader_font_family: Option<String>,
    pub reader_font_size: Option<i16>,
    pub default_speed_bits: Option<u32>,
    pub default_pitch_bits: Option<u32>,
    pub sleep_timer_minutes: Option<i16>,
    pub daily_goal_minutes: Option<i16>,
    pub activity_sharing: Option<bool>,
    pub contact_matching_opt_in: Option<bool>,
}

/// Applies a settings change for a user. The caller loads the stored
/// settings, asks for the updated ones here and saves them.
pub struct UpdateSettings<R> {
    pub repository: R,
}

/// The application theme a name stands for.
pub open spec fn app_theme_named(s: Seq<char>) -> Option<AppTheme> {
    if s == "light"@ {
        Some(AppTheme::Light)
    } else if s == "dark"@ {
        Some(AppTheme::Dark)
    } else {
        None
    }
}

/// The reader theme a name stands for.
pub open spec fn reader_theme_named(s: Seq<char>) -> Option<ReaderTheme> {
    if s == "light"@ {
        Some(ReaderTheme::Light)
    } else if s == "dark"@ {
        Some(ReaderTheme::Dark)
    } else {
        None
    }
}

/// `a`'s value, or `b` where `a` is `None`.
pub open spec fn or_keep<T>(a: Option<T>, b: T) -> T {
    match a {
        Some(v) => v,
        None => b,
    }
}

/// The message of the error that the change is refused with, if any: an
/// unknown application theme is reported before an unknown reader theme.
pub open spec fn settings_refusal(input: UpdateSettingsInput) -> Option<Seq<char>> {
    if input.app_theme is Some && app_theme_named(input.app_theme->0@) is None {
        Some("invalid app_theme: "@ + input.app_theme->0@)
    } else if input.reader_theme is Some && reader_theme_named(input.reader_theme->0@) is None {
        Some("invalid reader_theme: "@ + input.reader_theme->0@)
    } else {
        None
    }
}

/// `base` with the change applied, for `user_id`, stamped `updated_at`;
/// the voice is always kept.
pub open spec fn settings_merged(user_id: EntityId, base: UserSettings, input: UpdateSettingsInput, updated_at: Timestamp) -> UserSettings {
    UserSettings {
        user_id,
        app_theme: if input.app_theme is Some { app_theme_named(input.app_theme->0@)->0 } else { base.app_theme },
        reader_theme: if input.reader_theme is Some { reader_theme_named(input.reader_theme->0@)->0 } else { base.reader_theme },
        reader_font_family: if input.reader_font_family is Some { input.reader_font_family } else { base.reader_font_family },
        reader_font_size: or_keep(input.reader_font_size, base.reader_font_size),
        default_voice_id: base.default_voice_id,
        default_speed_bits: or_keep(input.default_speed_bits, base.default_speed_bits),
        default_pitch_bits: or_keep(input.default_pitch_bits, base.default_pitch_bits),
        sleep_timer_minutes: if input.sleep_timer_minutes is Some { input.sleep_timer_minutes } else { base.sleep_timer_minutes },
        daily_goal_minutes: or_keep(input.daily_goal_minutes, base.daily_goal_minutes),
        activity_sharing: or_keep(input.activity_sharing, base.activity_sharing),
        contact_matching_opt_in: or_keep(input.contact_matching_opt_in, base.contact_matching_opt_in),
        updated_at,
    }
}

/// The application theme named `s`, if any.
fn parse_app_theme(s: &String) -> (res: Option<AppTheme>)
    ensures
        res == app_theme_named(s@),
{
    if same_text(s.as_str(), "light") {
        Some(AppTheme::Light)
    } else if same_text(s.as_str(), "dark") {
        Some(AppTheme::Dark)
    } else {
        None
    }
}

/// The reader theme named `s`, if any.
fn parse_reader_theme(s: &String) -> (res: Option<ReaderTheme>)
    ensures
        res == reader_theme_named(s@),
{
    if same_text(s.as_str(), "light") {
        Some(ReaderTheme::Light)
    } else if same_text(s.as_str(), "dark") {
        Some(ReaderTheme::Dark)
    } else {
        None
    }
}

/// `s` is what a user asked for with `input` over `base`: every field the
/// change gives is that value (a theme is the one its name names), every
/// field it leaves out keeps `base`'s value, the voice is kept, and `s`
/// belongs to `user_id`.
pub open spec fn applies_settings_change(user_id: EntityId, base: UserSettings, input: UpdateSettingsInput, s: UserSettings) -> bool {
    &&& s.user_id == user_id
    &&& s.default_voice_id == base.default_voice_id
    &&& (input.app_theme matches Some(n) ==> app_theme_name(s.app_theme) == n@)
    &&& (input.app_theme is None ==> s.app_theme == base.app_theme)
    &&& (input.reader_theme matches Some(n) ==> reader_theme_name(s.reader_theme) == n@)
    &&& (input.reader_theme is None ==> s.reader_theme == base.reader_theme)
    &&& (input.reader_font_family is Some ==> s.reader_font_family == input.reader_font_family)
    &&& (input.reader_font_family is None ==> s.reader_font_family == base.reader_font_family)
    &&& (input.reader_font_size matches Some(v) ==> s.reader_font_size == v)
    &&& (input.reader_font_size is None ==> s.reader_font_size == base.reader_font_size)
    &&& (input.default_speed_bits matches Some(v) ==> s.default_speed_bits == v)
    &&& (input.default_speed_bits is None ==> s.default_speed_bits == base.default_speed_bits)
    &&& (input.default_pitch_bits matches Some(v) ==> s.default_pitch_bits == v)
    &&& (input.default_pitch_bits is None ==> s.default_pitch_bits == base.default_pitch_bits)
    &&& (input.sleep_timer_minutes is Some ==> s.sleep_timer_minutes == input.sleep_timer_minutes)
    &&& (input.sleep_timer_minutes is None ==> s.sleep_timer_minutes == base.sleep_timer_minutes)
    &&& (input.daily_goal_minutes matches Some(v) ==> s.daily_goal_minutes == v)
    &&& (input.daily_goal_minutes is None ==> s.daily_goal_minutes == base.daily_goal_minutes)
    &&& (input.activity_sharing matches Some(v) ==> s.activity_sharing == v)
    &&& (input.activity_sharing is None ==> s.activity_sharing == base.activity_sharing)
    &&& (input.contact_matching_opt_in matches Some(v) ==> s.contact_matching_opt_in == v)
    &&& (input.contact_matching_opt_in is None ==> s.contact_matching_opt_in == base.contact_matching_opt_in)
}

/// A theme name that is accepted names the theme it is read as.
pub proof fn law_theme_names_read_back(n: Seq<char>)
    ensures
        app_theme_named(n) matches Some(t) ==> app_theme_name(t) == n,
        reader_theme_named(n) matches Some(t) ==> reader_theme_name(t) == n,
{
}

/// An accepted settings change gives the user what was asked: each given
/// field is the given value (a theme the one its name names), each other
/// field is kept.
pub proof fn law_settings_change_applied(user_id: EntityId, base: UserSettings, input: UpdateSettingsInput, updated_at: Timestamp)
    requires
        settings_refusal(input) is None,
    ensures
        applies_settings_change(user_id, base, input, settings_merged(user_id, base, input, updated_at)),
        settings_merged(user_id, base, input, updated_at).updated_at == updated_at,
{
    if input.app_theme is Some {
        law_theme_names_read_back(input.app_theme->0@);
    }
    if input.reader_theme is Some {
        law_theme_names_read_back(input.reader_theme->0@);
    }
}

/// Applies `input` to `base` for `user_id`, stamped `updated_at`. An
/// unknown theme name is refused with its message and nothing else.
pub fn merge_settings(user_id: EntityId, base: UserSettings, input: UpdateSettingsInput, updated_at: Timestamp) -> (res: Result<UserSettings, AppError>)
    ensures
        settings_refusal(input) matches Some(m) ==> (res matches Err(AppError::UnprocessableEntity(x)) && x@ == m),
        settings_refusal(input) is None ==> res == Ok::<UserSettings, AppError>(settings_merged(user_id, base, input, updated_at)),
        res is Ok <==> settings_refusal(input) is None,
        res matches Ok(s) ==> applies_settings_change(user_id, base, input, s) && s.updated_at == updated_at,
{
    proof {
        if settings_refusal(input) is None {
            law_settings_change_applied(user_id, base, input, updated_at);
        }
    }
    let UpdateSettingsInput {
        app_theme,
        reader_theme,
        reader_font_family,
        reader_font_size,
        default_speed_bits,
        default_pitch_bits,
        sleep_timer_minutes,
        daily_goal_minutes,
        activity_sharing,
        contact_matching_opt_in,
    } = input;
    let new_app_theme = match app_theme {
        Some(t) => match parse_app_theme(&t) {
            Some(v) => v,
            None => return Err(AppError::unprocessable("invalid app_theme: ", t.as_str())),
        },
        None => base.app_theme,
    };
    let new_reader_theme = match reader_theme {
        Some(t) => match parse_reader_theme(&t) {
            Some(v) => v,
            None => return Err(AppError::unprocessable("invalid reader_theme: ", t.as_str())),
        },
        None => base.reader_theme,
    };
    let font_family = match reader_font_family {
        Some(f) => Some(f),
        None => base.reader_font_family,
    };
    let sleep = match sleep_timer_minutes {
        Some(v) => Some(v),
        None => base.sleep_timer_minutes,
    };
    Ok(UserSettings {
        user_id,
        app_theme: new_app_theme,
        reader_theme: new_reader_theme,
        reader_font_family: font_family,
        reader_font_size: match reader_font_size { Some(v) => v, None => base.reader_font_size },
        default_voice_id: base.default_voice_id,
        default_speed_bits: match default_speed_bits { Some(v) => v, None => base.default_speed_bits },
        default_pitch_bits: match default_pitch_bits { Some(v) => v, None => base.default_pitch_bits },
        sleep_timer_minutes: sleep,
        daily_goal_minutes: match daily_goal_minutes { Some(v) => v, None => base.daily_goal_minutes },
        activity_sharing: match activity_sharing { Some(v) => v, None => base.activity_sharing },
        contact_matching_opt_in: match contact_matching_opt_in { Some(v) => v, None => base.contact_matching_opt_in },
        updated_at,
    })
}

impl<R> UpdateSettings<R> {
    /// The settings to save after `input`: the stored settings, or the
    /// defaults for `user_id` where none are stored, with the change
    /// applied and stamped now. An unknown theme is refused.
    pub fn settings_after_update(&self, user_id: EntityId, existing: Option<UserSettings>, input: UpdateSettingsInput) -> (res: Result<UserSettings, AppError>)
        ensures
            settings_refusal(input) matches Some(m) ==> (res matches Err(AppError::UnprocessableEntity(x)) && x@ == m),
            settings_refusal(input) is None && existing is Some ==> (res matches Ok(s)
                && s == settings_merged(user_id, existing->0, input, s.updated_at)),
            settings_refusal(input) is None && existing is None ==> (res matches Ok(s)
                && exists|d: UserSettings| d.is_default_for(user_id) && s == #[trigger] settings_merged(user_id, d, input, s.updated_at)),
            existing is Some ==> (res matches Ok(s) ==> applies_settings_change(user_id, existing->0, input, s)),
            existing is None ==> (res matches Ok(s) ==> exists|d: UserSettings| d.is_default_for(user_id)
                && #[trigger] applies_settings_change(user_id, d, input, s)),
    {
        let base = match existing {
            Some(s) => s,
            None => UserSettings::new(user_id),
        };
        let res = merge_settings(user_id, base, input, now());
        proof {
            if settings_refusal(input) is None && existing is None {
                let s = res->Ok_0;
                assert(s == settings_merged(user_id, base, input, s.updated_at));
            }
        }
        res
    }
}

} // verus!
