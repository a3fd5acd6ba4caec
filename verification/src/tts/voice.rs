use vstd::prelude::*;

use crate::common::clock::Timestamp;
use crate::common::error::{found_or_not_found, AppError, UnknownName};
use crate::common::ids::EntityId;
use crate::common::text::{owned, same_text};

verus! {

/// Which voices a user may use.
#[derive(Clone, Copy, Debug, PartialEq, Eq, Structural)]
pub enum VoiceTier {
    Basic,
    Premium,
}

/// The stored name of a tier.
pub open spec fn tier_name(t: VoiceTier) -> Seq<char> {
    match t {
        VoiceTier::Basic => "basic"@,
        VoiceTier::Premium => "premium"@,
    }
}

/// The tier a stored name stands for.
pub open spec fn tier_named(s: Seq<char>) -> Option<VoiceTier> {
    if s == "basic"@ {
        Some(VoiceTier::Basic)
    } else if s == "premium"@ {
        Some(VoiceTier::Premium)
    } else {
        None
    }
}

impl VoiceTier {
    /// The stored name of the tier.
    pub fn as_str(&self) -> (res: &'static str)
        ensures
            res@ == tier_name(*self),
    {
        match self {
            VoiceTier::Basic => "basic",
            VoiceTier::Premium => "premium",
        }
    }

    /// The tier a stored name stands for; another name is refused with
    /// "unknown voice tier: " and the name.
    pub fn from_name(s: &str) -> (res: Result<VoiceTier, UnknownName>)
        ensures
            tier_named(s@) is Some ==> (res matches Ok(v) && v == tier_named(s@)->0),
            tier_named(s@) is None ==> (res matches Err(e) && e.message@ == "unknown voice tier: "@ + s@),
    {
        if same_text(s, "basic") {
            Ok(VoiceTier::Basic)
        } else if same_text(s, "premium") {
            Ok(VoiceTier::Premium)
        } else {
            Err(UnknownName::new("unknown voice tier: ", s))
        }
    }
}

/// Reading a tier's name gives the tier back.
pub proof fn law_tier_name_round_trip(t: VoiceTier)
    ensures
        tier_named(tier_name(t)) == Some(t),
{
    reveal_strlit("basic");
    reveal_strlit("premium");
    assert("basic"@.len() == 5);
    assert("premium"@.len() == 7);
}

/// A synthetic voice.
#[derive(Clone, Debug)]
pub struct Voice {
    pub id: EntityId,
    pub name: String,
    pub locale: String,
    pub tier: VoiceTier,
    pub descriptor: Option<String>,
    pub avatar_hue: Option<i16>,
    pub preview_url: Option<String>,
    pub is_active: bool,
    pub created_at: Timestamp,
}

impl Voice {
    /// A voice as it was stored: the stored tier name must name a tier,
    /// else it is refused as `VoiceTier::from_name` refuses it.
    pub fn from_stored(
        id: EntityId,
        name: String,
        locale: String,
        tier: &str,
        descriptor: Option<String>,
        avatar_hue: Option<i16>,
        preview_url: Option<String>,
        is_active: bool,
        created_at: Timestamp,
    ) -> (res: Result<Voice, UnknownName>)
        ensures
            tier_named(tier@) is None ==> (res matches Err(e) && e.message@ == "unknown voice tier: "@ + tier@),
            tier_named(tier@) is Some ==> (res matches Ok(v) && v == (Voice {
                id,
                name,
                locale,
                tier: tier_named(tier@)->0,
                descriptor,
                avatar_hue,
                preview_url,
                is_active,
                created_at,
            })),
    {
        let tier = match VoiceTier::from_name(tier) {
            Ok(t) => t,
            Err(e) => return Err(e),
        };
        Ok(Voice { id, name, locale, tier, descriptor, avatar_hue, preview_url, is_active, created_at })
    }
}

/// A piece of a book's text, ready to be spoken.
#[derive(Clone, Debug)]
pub struct TextChunk {
    pub book_file_id: EntityId,
    pub chapter: i32,
    pub sequence: i32,
    pub text: String,
    pub char_count: i32,
}

/// Looks up one voice.
pub struct GetVoice<R> {
    pub repository: R,
}

/// Lists the active voices, optionally of one locale and one tier.
pub struct ListVoices<R> {
    pub repository: R,
}

/// Lists the text chunks of a book, optionally of one chapter.
pub struct GetTextChunks<R> {
    pub repository: R,
}

/// The query of the voice list: a locale and a tier name, both optional.
pub struct ListVoicesQuery {
    pub locale: Option<String>,
    pub tier: Option<String>,
}

/// The query of the chunk list: an optional chapter.
pub struct GetChunksQuery {
    pub chapter: Option<i32>,
}

/// A voice as the client sees it.
pub struct VoiceResponse {
    pub id: EntityId,
    pub name: String,
    pub locale: String,
    pub tier: String,
    pub descriptor: Option<String>,
    pub avatar_hue: Option<i16>,
    pub preview_url: Option<String>,
    pub created_at: Timestamp,
}

/// A text chunk as the client sees it.
pub struct TextChunkResponse {
    pub chapter: i32,
    pub sequence: i32,
    pub text: String,
    pub char_count: i32,
}

impl<R> GetVoice<R> {
    /// The loaded voice, or `NotFound("voice")`.
    pub fn voice_found(&self, found: Option<Voice>) -> (res: Result<Voice, AppError>)
        ensures
            found is Some ==> res is Ok && res->Ok_0 == found->0,
            found is None ==> (res matches Err(AppError::NotFound(m)) && m@ == "voice"@),
    {
        found_or_not_found(found, "voice")
    }
}

impl ListVoicesQuery {
    /// The tier to filter by: none where the query names none, else the
    /// named tier; an unknown name is refused with its message.
    pub fn tier_filter(&self) -> (res: Result<Option<VoiceTier>, AppError>)
        ensures
            self.tier is None ==> res == Ok::<Option<VoiceTier>, AppError>(None),
            self.tier is Some && tier_named(self.tier->0@) is Some
                ==> res == Ok::<Option<VoiceTier>, AppError>(tier_named(self.tier->0@)),
            self.tier is Some && tier_named(self.tier->0@) is None ==> (res matches Err(AppError::UnprocessableEntity(m))
                && m@ == "unknown voice tier: "@ + self.tier->0@),
    {
        match &self.tier {
            None => Ok(None),
            Some(t) => match VoiceTier::from_name(t.as_str()) {
                Ok(v) => Ok(Some(v)),
                Err(e) => Err(AppError::UnprocessableEntity(e.message)),
            },
        }
    }
}

impl VoiceResponse {
    /// The client's view of `v`: its fields, with the tier by name; whether
    /// it is active is not shown.
    pub fn from_voice(v: Voice) -> (res: VoiceResponse)
        ensures
            res.id == v.id,
            res.name == v.name,
            res.locale == v.locale,
            res.tier@ == tier_name(v.tier),
            res.descriptor == v.descriptor,
            res.avatar_hue == v.avatar_hue,
            res.preview_url == v.preview_url,
            res.created_at == v.created_at,
    {
        VoiceResponse {
            id: v.id,
            name: v.name,
            locale: v.locale,
            tier: owned(v.tier.as_str()),
            descriptor: v.descriptor,
            avatar_hue: v.avatar_hue,
            preview_url: v.preview_url,
            created_at: v.created_at,
        }
    }
}

impl TextChunkResponse {
    /// The client's view of `c`: everything but the book.
    pub fn from_chunk(c: TextChunk) -> (res: TextChunkResponse)
        ensures
            res.chapter == c.chapter,
            res.sequence == c.sequence,
            res.text == c.text,
            res.char_count == c.char_count,
    {
        TextChunkResponse { chapter: c.chapter, sequence: c.sequence, text: c.text, char_count: c.char_count }
    }
}

} // verus!
