use vstd::prelude::*;

use crate::common::clock::{ts_le, Timestamp};
use crate::common::error::{AppError, UnknownName};
use crate::common::text::same_text;

verus! {

/// The event name under which a logged session is published.
pub const READING_SESSION_LOGGED: &'static str = "reading_session.logged";

/// How a session was read.
#[derive(Clone, Copy, Debug, PartialEq, Eq, Structural)]
pub enum SessionMode {
    Text,
    Tts,
}

/// The name of a mode.
pub open spec fn mode_name(m: SessionMode) -> Seq<char> {
    match m {
        SessionMode::Text => "text"@,
        SessionMode::Tts => "tts"@,
    }
}

/// The mode a name stands for.
pub open spec fn mode_named(s: Seq<char>) -> Option<SessionMode> {
    if s == "text"@ {
        Some(SessionMode::Text)
    } else if s == "tts"@ {
        Some(SessionMode::Tts)
    } else {
        None
    }
}

impl SessionMode {
    /// The name of the mode.
    pub fn as_str(&self) -> (res: &'static str)
        ensures
            res@ == mode_name(*self),
    {
        match self {
            SessionMode::Text => "text",
            SessionMode::Tts => "tts",
        }
    }

    /// The mode a name stands for; another name is refused with
    /// "unknown session mode: " and the name.
    pub fn from_name(s: &str) -> (res: Result<SessionMode, UnknownName>)
        ensures
            mode_named(s@) is Some ==> (res matches Ok(v) && v == mode_named(s@)->0),
            mode_named(s@) is None ==> (res matches Err(e) && e.message@ == "unknown session mode: "@ + s@),
    {
        if same_text(s, "text") {
            Ok(SessionMode::Text)
        } else if same_text(s, "tts") {
            Ok(SessionMode::Tts)
        } else {
            Err(UnknownName::new("unknown session mode: ", s))
        }
    }
}

/// Reading a mode's name gives the mode back.
pub proof fn law_mode_name_round_trip(m: SessionMode)
    ensures
        mode_named(mode_name(m)) == Some(m),
{
    reveal_strlit("text");
    reveal_strlit("tts");
    assert("text"@.len() == 4);
    assert("tts"@.len() == 3);
}

/// The message that a session is refused with, if any: an end not after
/// the start first, then a negative page count, then negative minutes.
pub open spec fn session_refusal(started_at: Timestamp, ended_at: Timestamp, pages_read: i32, minutes_negative: bool) -> Option<Seq<char>> {
    if ts_le(ended_at, started_at) {
        Some("ended_at must be after started_at"@)
    } else if pages_read < 0 {
        Some("pages_read cannot be negative"@)
    } else if minutes_negative {
        Some("minutes cannot be negative"@)
    } else {
        None
    }
}

/// Checks a finished session before it is logged: it must end after it
/// started, and its pages and minutes must not be negative. Minutes are
/// a floating-point number; the caller compares them with zero and passes
/// whether they are below it.
pub fn check_session(started_at: Timestamp, ended_at: Timestamp, pages_read: i32, minutes_negative: bool) -> (res: Result<(), AppError>)
    ensures
        session_refusal(started_at, ended_at, pages_read, minutes_negative) is None ==> res is Ok,
        session_refusal(started_at, ended_at, pages_read, minutes_negative) matches Some(m)
            ==> (res matches Err(AppError::UnprocessableEntity(x)) && x@ == m),
{
    if ended_at.not_after(&started_at) {
        return Err(AppError::unprocessable_message("ended_at must be after started_at"));
    }
    if pages_read < 0 {
        return Err(AppError::unprocessable_message("pages_read cannot be negative"));
    }
    if minutes_negative {
        return Err(AppError::unprocessable_message("minutes cannot be negative"));
    }
    Ok(())
}

} // verus!
