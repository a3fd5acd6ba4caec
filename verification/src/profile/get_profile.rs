use vstd::prelude::*;

use crate::common::error::{found_or_not_found, AppError};
use crate::profile::profile::{is_fresh_profile_for, Profile};
use crate::profile::settings::UserSettings;
use crate::common::ids::EntityId;

verus! {

/// Reads the caller's own profile.
pub struct GetProfile<R> {
    pub repository: R,
}

/// Reads a public profile by handle.
pub struct GetPublicProfile<R> {
    pub repository: R,
}

/// Creates the default profile and settings of a newly registered user.
pub struct ProfileEventConsumer<R> {
    pub repository: R,
}

impl<R> GetProfile<R> {
    /// The loaded profile, or `NotFound("profile")`.
    pub fn profile_found(&self, found: Option<Profile>) -> (res: Result<Profile, AppError>)
        ensures
            found is Some ==> res == Ok::<Profile, AppError>(found->0),
            found is None ==> (res matches Err(AppError::NotFound(m)) && m@ == "profile"@),
    {
        found_or_not_found(found, "profile")
    }
}

impl<R> GetPublicProfile<R> {
    /// The loaded public profile, or `NotFound("profile")`.
    pub fn profile_found(&self, found: Option<Profile>) -> (res: Result<Profile, AppError>)
        ensures
            found is Some ==> res == Ok::<Profile, AppError>(found->0),
            found is None ==> (res matches Err(AppError::NotFound(m)) && m@ == "profile"@),
    {
        found_or_not_found(found, "profile")
    }
}

impl<R> ProfileEventConsumer<R> {
    /// What to store for a newly registered user: nothing where a profile
    /// already exists, else a fresh profile and the default settings.
    pub fn defaults_for_registered_user(&self, user_id: EntityId, profile_exists: bool) -> (res: Option<(Profile, UserSettings)>)
        ensures
            profile_exists ==> res is None,
            !profile_exists ==> (res matches Some((p, s)) && is_fresh_profile_for(p, user_id)
                && s.is_default_for(user_id)),
    {
        if profile_exists {
            return None;
        }
        Some((Profile::new(user_id), UserSettings::new(user_id)))
    }
}

} // verus!
