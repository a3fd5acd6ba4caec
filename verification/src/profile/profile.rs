use vstd::prelude::*;

use crate::common::calendar::CalendarDate;
use crate::common::clock::{now, Timestamp};
use crate::common::ids::EntityId;
use crate::common::text::same_text;

verus! {

/// Who may see a profile.
#[derive(Clone, Copy, Debug, PartialEq, Eq, Structural)]
pub enum ProfileVisibility {
    Public,
    Private,
}

/// The name under which a visibility is stored and shown.
pub open spec fn visibility_name(v: ProfileVisibility) -> Seq<char> {
    match v {
        ProfileVisibility::Public => "public"@,
        ProfileVisibility::Private => "private"@,
    }
}

/// The visibility read from a stored name: "private" is private, any
/// other name public.
pub open spec fn stored_visibility(s: Seq<char>) -> ProfileVisibility {
    if s == "private"@ {
        ProfileVisibility::Private
    } else {
        ProfileVisibility::Public
    }
}

impl ProfileVisibility {
    /// The name under which the visibility is stored and shown.
    pub fn as_str(&self) -> (res: &'static str)
        ensures
            res@ == visibility_name(*self),
    {
        match self {
            ProfileVisibility::Public => "public",
            ProfileVisibility::Private => "private",
        }
    }

    /// The visibility stored under `s`: "private" is private, any other
    /// name public.
    pub fn from_stored(s: &str) -> (res: ProfileVisibility)
        ensures
            res == stored_visibility(s@),
    {
        if same_text(s, "private") {
            ProfileVisibility::Private
        } else {
            ProfileVisibility::Public
        }
    }
}

/// The visibility read back from its stored name is the one written.
pub proof fn law_visibility_name_round_trip(v: ProfileVisibility)
    ensures
        stored_visibility(visibility_name(v)) == v,
{
    reveal_strlit("public");
    reveal_strlit("private");
    assert("public"@.len() != "private"@.len());
}

/// A user's public-facing profile.
#[derive(Clone, Debug)]
pub struct Profile {
    pub user_id: EntityId,
    pub bio: Option<String>,
    pub pronouns: Option<String>,
    pub location: Option<String>,
    pub banner_url: Option<String>,
    pub visibility: ProfileVisibility,
    pub favorite_genres: Option<String>,
    pub reading_since: Option<CalendarDate>,
    pub followers_count: i32,
    pub friends_count: i32,
    pub created_at: Timestamp,
    pub updated_at: Timestamp,
}

/// `b` equals `a` except, perhaps, in its last-update time.
pub open spec fn same_but_updated_at(a: Profile, b: Profile) -> bool {
    b == Profile { updated_at: b.updated_at, ..a }
}

/// Whether `p` is a freshly created profile of `user_id`: public, with no
/// details and no followers or friends.
pub open spec fn is_fresh_profile_for(p: Profile, user_id: EntityId) -> bool {
    &&& p.user_id == user_id
    &&& p.bio is None && p.pronouns is None && p.location is None
    &&& p.banner_url is None && p.favorite_genres is None && p.reading_since is None
    &&& p.visibility == ProfileVisibility::Public
    &&& p.followers_count == 0 && p.friends_count == 0
}

impl Profile {
    /// An empty public profile for `user_id`, created now.
    pub fn new(user_id: EntityId) -> (res: Profile)
        ensures
            is_fresh_profile_for(res, user_id),
    {
        Profile {
            user_id,
            bio: None,
            pronouns: None,
            location: None,
            banner_url: None,
            visibility: ProfileVisibility::Public,
            favorite_genres: None,
            reading_since: None,
            followers_count: 0,
            friends_count: 0,
            created_at: now(),
            updated_at: now(),
        }
    }

    /// Whether only the owner may see the profile.
    pub fn is_private(&self) -> (res: bool)
        ensures
            res == (self.visibility == ProfileVisibility::Private),
    {
        match self.visibility {
            ProfileVisibility::Private => true,
            ProfileVisibility::Public => false,
        }
    }

    /// Whether anyone may see the profile.
    pub fn is_public(&self) -> (res: bool)
        ensures
            res == (self.visibility == ProfileVisibility::Public),
    {
        self.visibility == ProfileVisibility::Public
    }

    /// Whether `user_id` owns the profile.
    pub fn is_owner(&self, user_id: &EntityId) -> (res: bool)
        ensures
            res == (self.user_id == *user_id),
    {
        self.user_id == *user_id
    }

    /// Whether `viewer_id` may see the profile: anyone for a public
    /// profile, only the owner for a private one.
    pub fn can_view(&self, viewer_id: &EntityId) -> (res: bool)
        ensures
            res == (self.visibility == ProfileVisibility::Public || self.user_id == *viewer_id),
    {
        self.is_public() || self.is_owner(viewer_id)
    }

    /// Replaces the bio.
    pub fn update_bio(&mut self, bio: Option<String>)
        ensures
            *final(self) == (Profile { bio, ..*old(self) }),
    {
        self.bio = bio;
    }

    /// Replaces the pronouns.
    pub fn update_pronouns(&mut self, pronouns: Option<String>)
        ensures
            *final(self) == (Profile { pronouns, ..*old(self) }),
    {
        self.pronouns = pronouns;
    }

    /// Replaces the location.
    pub fn update_location(&mut self, location: Option<String>)
        ensures
            *final(self) == (Profile { location, ..*old(self) }),
    {
        self.location = location;
    }

    /// Replaces the banner address.
    pub fn update_banner_url(&mut self, banner_url: Option<String>)
        ensures
            *final(self) == (Profile { banner_url, ..*old(self) }),
    {
        self.banner_url = banner_url;
    }

    /// Replaces the visibility.
    pub fn update_visibility(&mut self, visibility: ProfileVisibility)
        ensures
            *final(self) == (Profile { visibility, ..*old(self) }),
    {
        self.visibility = visibility;
    }

    /// Replaces the favourite genres.
    pub fn update_favorite_genres(&mut self, favorite_genres: Option<String>)
        ensures
            *final(self) == (Profile { favorite_genres, ..*old(self) }),
    {
        self.favorite_genres = favorite_genres;
    }

    /// Replaces the date since which the user reads.
    pub fn update_reading_since(&mut self, reading_since: Option<CalendarDate>)
        ensures
            *final(self) == (Profile { reading_since, ..*old(self) }),
    {
        self.reading_since = reading_since;
    }

    /// Stamps the profile as updated now; nothing else changes.
    pub fn update_updated_at(&mut self)
        ensures
            same_but_updated_at(*old(self), *final(self)),
    {
        self.updated_at = now();
    }

    /// Replaces the followers count.
    pub fn update_followers_count(&mut self, followers_count: i32)
        ensures
            *final(self) == (Profile { followers_count, ..*old(self) }),
    {
        self.followers_count = followers_count;
    }

    /// Replaces the friends count.
    pub fn update_friends_count(&mut self, friends_count: i32)
        ensures
            *final(self) == (Profile { friends_count, ..*old(self) }),
    {
        self.friends_count = friends_count;
    }

    /// Counts one more friend.
    pub fn increment_friends_count(&mut self)
        requires
            old(self).friends_count < i32::MAX,
        ensures
            *final(self) == (Profile { friends_count: (old(self).friends_count + 1) as i32, ..*old(self) }),
    {
        self.friends_count = self.friends_count + 1;
    }

    /// Counts one friend fewer.
    pub fn decrement_friends_count(&mut self)
        requires
            old(self).friends_count > i32::MIN,
        ensures
            *final(self) == (Profile { friends_count: (old(self).friends_count - 1) as i32, ..*old(self) }),
    {
        self.friends_count = self.friends_count - 1;
    }
}

} // verus!
