use vstd::prelude::*;

use crate::common::calendar::{parse_iso_date, parsed_iso_date, CalendarDate};
use crate::common::error::AppError;
use crate::common::ids::EntityId;
use crate::common::text::same_text;
use crate::profile::profile::{is_fresh_profile_for, same_but_updated_at, visibility_name, Profile, ProfileVisibility};

verus! {

/// A change to a profile; each field left `None` keeps its value. The
/// visibility is `public` or `private`; the reading start is `YYYY-MM-DD`.
pub struct UpdateProfileInput {
    pub bio: Option<String>,
    pub pronouns: Option<String>,
    pub location: Option<String>,
    pub banner_url: Option<String>,
    pub visibility: Option<String>,
    pub favorite_genres: Option<String>,
    pub reading_since: Option<String>,
}

/// Applies a profile change for a user. The caller loads the stored
/// profile, asks for the updated one here and saves it.
pub struct UpdateProfile<R> {
    pub repository: R,
}

/// The visibility a name stands for.
pub open spec fn visibility_named(s: Seq<char>) -> Option<ProfileVisibility> {
    if s == "public"@ {
        Some(ProfileVisibility::Public)
    } else if s == "private"@ {
        Some(ProfileVisibility::Private)
    } else {
        None
    }
}

/// The message of the error that the change is refused with, if any: an
/// unknown visibility is reported before an unreadable date.
pub open spec fn profile_refusal(input: UpdateProfileInput) -> Option<Seq<char>> {
    if input.visibility is Some && visibility_named(input.visibility->0@) is None {
        Some("invalid visibility: "@ + input.visibility->0@)
    } else if input.reading_since is Some && parsed_iso_date(input.reading_since->0@) is None {
        Some("invalid reading_since format, use YYYY-MM-DD"@)
    } else {
        None
    }
}

/// The date that `s` is read as, where chrono reads one.
pub open spec fn date_read(s: Seq<char>) -> CalendarDate {
    let p = parsed_iso_date(s)->0;
    CalendarDate { year: p.0 as i32, month: p.1 as u32, day: p.2 as u32 }
}

/// `base` with the change applied (the update time is left as it is).
pub open spec fn profile_merged(base: Profile, input: UpdateProfileInput) -> Profile {
    Profile {
        bio: if input.bio is Some { input.bio } else { base.bio },
        pronouns: if input.pronouns is Some { input.pronouns } else { base.pronouns },
        location: if input.location is Some { input.location } else { base.location },
        banner_url: if input.banner_url is Some { input.banner_url } else { base.banner_url },
        favorite_genres: if input.favorite_genres is Some { input.favorite_genres } else { base.favorite_genres },
        visibility: if input.visibility is Some { visibility_named(input.visibility->0@)->0 } else { base.visibility },
        reading_since: if input.reading_since is Some { Some(date_read(input.reading_since->0@)) } else { base.reading_since },
        ..base
    }
}

/// `p` is what a user asked for with `input` over `base`: every field the
/// change gives is that value (the visibility the one its name names, the
/// reading start the date its text is read as), every field it leaves out
/// keeps `base`'s value, and the owner, counts and creation time are kept.
pub open spec fn applies_profile_change(base: Profile, input: UpdateProfileInput, p: Profile) -> bool {
    &&& p.user_id == base.user_id
    &&& p.followers_count == base.followers_count && p.friends_count == base.friends_count
    &&& p.created_at == base.created_at
    &&& (input.bio is Some ==> p.bio == input.bio) && (input.bio is None ==> p.bio == base.bio)
    &&& (input.pronouns is Some ==> p.pronouns == input.pronouns) && (input.pronouns is None ==> p.pronouns == base.pronouns)
    &&& (input.location is Some ==> p.location == input.location) && (input.location is None ==> p.location == base.location)
    &&& (input.banner_url is Some ==> p.banner_url == input.banner_url)
    &&& (input.banner_url is None ==> p.banner_url == base.banner_url)
    &&& (input.favorite_genres is Some ==> p.favorite_genres == input.favorite_genres)
    &&& (input.favorite_genres is None ==> p.favorite_genres == base.favorite_genres)
    &&& (input.visibility matches Some(v) ==> visibility_name(p.visibility) == v@)
    &&& (input.visibility is None ==> p.visibility == base.visibility)
    &&& (input.reading_since matches Some(t) ==> p.reading_since == Some(date_read(t@)))
    &&& (input.reading_since is None ==> p.reading_since == base.reading_since)
}

/// A visibility name that is accepted names the visibility it is read as.
pub proof fn law_visibility_name_read_back(n: Seq<char>)
    ensures
        visibility_named(n) matches Some(v) ==> visibility_name(v) == n,
{
}

/// An accepted profile change gives the user what was asked: each given
/// field is the given value, each other field is kept.
pub proof fn law_profile_change_applied(base: Profile, input: UpdateProfileInput)
    requires
        profile_refusal(input) is None,
    ensures
        applies_profile_change(base, input, profile_merged(base, input)),
        profile_merged(base, input).updated_at == base.updated_at,
{
    if input.visibility is Some {
        law_visibility_name_read_back(input.visibility->0@);
    }
}

/// Applies `input` to `base`. An unknown visibility or an unreadable date
/// is refused with its message.
pub fn merge_profile(base: Profile, input: UpdateProfileInput) -> (res: Result<Profile, AppError>)
    ensures
        profile_refusal(input) matches Some(m) ==> (res matches Err(AppError::UnprocessableEntity(x)) && x@ == m),
        profile_refusal(input) is None ==> res == Ok::<Profile, AppError>(profile_merged(base, input)),
        res is Ok <==> profile_refusal(input) is None,
        res matches Ok(p) ==> applies_profile_change(base, input, p) && p.updated_at == base.updated_at,
{
    proof {
        if profile_refusal(input) is None {
            law_profile_change_applied(base, input);
        }
    }
    let UpdateProfileInput { bio, pronouns, location, banner_url, visibility, favorite_genres, reading_since } = input;
    let mut profile = base;
    if let Some(b) = bio {
        profile.update_bio(Some(b));
    }
    if let Some(p) = pronouns {
        profile.update_pronouns(Some(p));
    }
    if let Some(l) = location {
        profile.update_location(Some(l));
    }
    if let Some(b) = banner_url {
        profile.update_banner_url(Some(b));
    }
    if let Some(g) = favorite_genres {
        profile.update_favorite_genres(Some(g));
    }
    if let Some(v) = visibility {
        let vis = if same_text(v.as_str(), "public") {
            ProfileVisibility::Public
        } else if same_text(v.as_str(), "private") {
            ProfileVisibility::Private
        } else {
            return Err(AppError::unprocessable("invalid visibility: ", v.as_str()));
        };
        profile.update_visibility(vis);
    }
    if let Some(s) = reading_since {
        let date = match parse_iso_date(s.as_str()) {
            Some(d) => d,
            None => {
                return Err(AppError::unprocessable_message("invalid reading_since format, use YYYY-MM-DD"));
            },
        };
        profile.update_reading_since(Some(date));
    }
    Ok(profile)
}

impl<R> UpdateProfile<R> {
    /// The profile to save after `input`: the stored profile, or a fresh
    /// one for `user_id` where none is stored, with the change applied and
    /// stamped as updated now.
    pub fn profile_after_update(&self, user_id: EntityId, existing: Option<Profile>, input: UpdateProfileInput) -> (res: Result<Profile, AppError>)
        ensures
            profile_refusal(input) matches Some(m) ==> (res matches Err(AppError::UnprocessableEntity(x)) && x@ == m),
            profile_refusal(input) is None && existing is Some ==> (res matches Ok(p)
                && same_but_updated_at(profile_merged(existing->0, input), p)),
            profile_refusal(input) is None && existing is None ==> (res matches Ok(p)
                && exists|f: Profile| is_fresh_profile_for(f, user_id) && #[trigger] same_but_updated_at(profile_merged(f, input), p)),
            existing is Some ==> (res matches Ok(p) ==> applies_profile_change(existing->0, input, p)),
            existing is None ==> (res matches Ok(p) ==> exists|f: Profile| is_fresh_profile_for(f, user_id)
                && #[trigger] applies_profile_change(f, input, p)),
    {
        let base = match existing {
            Some(p) => p,
            None => Profile::new(user_id),
        };
        let ghost b = base;
        match merge_profile(base, input) {
            Ok(p) => {
                let ghost merged = p;
                let mut p = p;
                p.update_updated_at();
                proof {
                    assert(same_but_updated_at(profile_merged(b, input), p));
                    assert(applies_profile_change(b, input, merged));
                    assert(applies_profile_change(b, input, p));
                }
                Ok(p)
            },
            Err(e) => Err(e),
        }
    }
}

} // verus!
