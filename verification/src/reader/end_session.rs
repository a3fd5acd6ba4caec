use vstd::prelude::*;

use crate::common::clock::Timestamp;
use crate::common::error::AppError;
use crate::common::ids::EntityId;
use crate::reader::reading_session::{check_session, session_refusal, SessionMode};

verus! {

/// Ends a reading session: checks that the library item is the reader's,
/// checks the session, logs it, marks the item as read now and announces
/// the session. The caller performs each action of `EndSessionFlow` and
/// hands back what it got.
pub struct EndSession<R> {
    pub repository: R,
}

/// Where the end of a session stands.
#[derive(Clone, Copy, Debug)]
pub enum EndStage {
    /// Nothing done yet.
    Start,
    /// The library item was asked for.
    ItemRequested,
    /// The session was checked and asked to be logged.
    LogRequested,
    /// The session was logged under this identifier; the item was asked
    /// to be marked as read now.
    LastReadRequested(EntityId),
    /// The session was asked to be announced; the identifier is the answer.
    PublishRequested(EntityId),
    /// The answer was given.
    Finished,
}

/// What the caller hands back.
pub enum EndEvent {
    /// Start.
    Begin,
    /// Whether the reader has the library item.
    ItemLoaded(bool),
    /// The session was logged under this identifier.
    SessionLogged(EntityId),
    /// The item was marked as read now.
    LastReadUpdated,
    /// The announcement was made or failed; either way the session stays
    /// logged.
    PublishDone,
}

/// The checked session to log, but for its minutes, which are a
/// floating-point number that the caller holds.
#[derive(Clone, Copy, Debug)]
pub struct SessionToLog {
    pub item_id: EntityId,
    pub user_id: EntityId,
    pub mode: SessionMode,
    pub voice_id: Option<EntityId>,
    pub started_at: Timestamp,
    pub ended_at: Timestamp,
    pub pages_read: i32,
}

/// What the caller does next.
#[derive(Debug)]
pub enum EndAction {
    /// Look up the library item (item, user).
    FindItem(EntityId, EntityId),
    /// Log the checked session, with the caller's minutes.
    LogSession(SessionToLog),
    /// Mark the item as read now (item, user).
    UpdateLastRead(EntityId, EntityId),
    /// Announce the logged session of the user on the item: its pages and
    /// its mode.
    Publish(EntityId, EntityId, i32, SessionMode),
    /// Answer the request.
    Respond(Result<EntityId, AppError>),
}

/// The state of ending one session: the item, the reader, what the
/// session says (whether its minutes are negative stands for the minutes,
/// which are a floating-point number), and how far it got.
#[derive(Clone, Copy, Debug)]
pub struct EndSessionFlow {
    pub item_id: EntityId,
    pub user_id: EntityId,
    pub mode: SessionMode,
    pub voice_id: Option<EntityId>,
    pub started_at: Timestamp,
    pub ended_at: Timestamp,
    pub pages_read: i32,
    pub minutes_negative: bool,
    pub stage: EndStage,
}

/// Whether `event` is the one that `stage` waits for.
pub open spec fn end_expected(stage: EndStage, event: EndEvent) -> bool {
    match stage {
        EndStage::Start => event is Begin,
        EndStage::ItemRequested => event is ItemLoaded,
        EndStage::LogRequested => event is SessionLogged,
        EndStage::LastReadRequested(_) => event is LastReadUpdated,
        EndStage::PublishRequested(_) => event is PublishDone,
        EndStage::Finished => false,
    }
}

impl EndSessionFlow {
    /// The end of a session on `item_id` by `user_id`, not yet started.
    pub fn new(
        item_id: EntityId,
        user_id: EntityId,
        mode: SessionMode,
        voice_id: Option<EntityId>,
        started_at: Timestamp,
        ended_at: Timestamp,
        pages_read: i32,
        minutes_negative: bool,
    ) -> (res: EndSessionFlow)
        ensures
            res == (EndSessionFlow {
                item_id, user_id, mode, voice_id, started_at, ended_at, pages_read, minutes_negative,
                stage: EndStage::Start,
            }),
    {
        EndSessionFlow {
            item_id, user_id, mode, voice_id, started_at, ended_at, pages_read, minutes_negative,
            stage: EndStage::Start,
        }
    }

    /// The session that this flow logs: its item, reader, mode, voice,
    /// times and pages.
    pub open spec fn to_log(self) -> SessionToLog {
        SessionToLog {
            item_id: self.item_id,
            user_id: self.user_id,
            mode: self.mode,
            voice_id: self.voice_id,
            started_at: self.started_at,
            ended_at: self.ended_at,
            pages_read: self.pages_read,
        }
    }

    /// Whether `other` is this flow at another stage.
    pub open spec fn same_session(self, other: EndSessionFlow) -> bool {
        &&& other.item_id == self.item_id
        &&& other.user_id == self.user_id
        &&& other.mode == self.mode
        &&& other.voice_id == self.voice_id
        &&& other.started_at == self.started_at
        &&& other.ended_at == self.ended_at
        &&& other.pages_read == self.pages_read
        &&& other.minutes_negative == self.minutes_negative
    }

    /// The next state and action after `event`. A missing item is
    /// answered with `NotFound("library item")` and a refused session with
    /// its refusal, both before anything is written; otherwise the session
    /// is logged, the item marked as read and the session announced, and
    /// the answer is the logged session's identifier whatever became of
    /// the announcement.
    pub fn step(self, event: EndEvent) -> (res: (EndSessionFlow, EndAction))
        requires
            end_expected(self.stage, event),
        ensures
            self.same_session(res.0),
            self.stage is Start ==> res.0.stage is ItemRequested
                && res.1 == EndAction::FindItem(self.item_id, self.user_id),
            event matches EndEvent::ItemLoaded(found) ==> (
                (!found ==> res.0.stage is Finished
                    && (res.1 matches EndAction::Respond(Err(AppError::NotFound(m))) && m@ == "library item"@))
                && (found ==> (session_refusal(self.started_at, self.ended_at, self.pages_read, self.minutes_negative) matches Some(r)
                    ==> res.0.stage is Finished
                    && (res.1 matches EndAction::Respond(Err(AppError::UnprocessableEntity(m))) && m@ == r)))
                && (found && session_refusal(self.started_at, self.ended_at, self.pages_read, self.minutes_negative) is None
                    ==> res.0.stage is LogRequested && res.1 == EndAction::LogSession(self.to_log()))),
            event matches EndEvent::SessionLogged(id) ==> res.0.stage == EndStage::LastReadRequested(id)
                && res.1 == EndAction::UpdateLastRead(self.item_id, self.user_id),
            event is LastReadUpdated ==> (self.stage matches EndStage::LastReadRequested(id)
                && res.0.stage == EndStage::PublishRequested(id)
                && res.1 == EndAction::Publish(self.user_id, self.item_id, self.pages_read, self.mode)),
            event is PublishDone ==> (self.stage matches EndStage::PublishRequested(id)
                && res.0.stage is Finished
                && res.1 == EndAction::Respond(Ok::<EntityId, AppError>(id))),
    {
        let mut next = self;
        match event {
            EndEvent::Begin => {
                next.stage = EndStage::ItemRequested;
                (next, EndAction::FindItem(self.item_id, self.user_id))
            },
            EndEvent::ItemLoaded(found) => {
                next.stage = EndStage::Finished;
                if !found {
                    return (next, EndAction::Respond(Err(AppError::not_found("library item"))));
                }
                match check_session(self.started_at, self.ended_at, self.pages_read, self.minutes_negative) {
                    Err(e) => (next, EndAction::Respond(Err(e))),
                    Ok(()) => {
                        next.stage = EndStage::LogRequested;
                        let session = SessionToLog {
                            item_id: self.item_id,
                            user_id: self.user_id,
                            mode: self.mode,
                            voice_id: self.voice_id,
                            started_at: self.started_at,
                            ended_at: self.ended_at,
                            pages_read: self.pages_read,
                        };
                        (next, EndAction::LogSession(session))
                    },
                }
            },
            EndEvent::SessionLogged(id) => {
                next.stage = EndStage::LastReadRequested(id);
                (next, EndAction::UpdateLastRead(self.item_id, self.user_id))
            },
            EndEvent::LastReadUpdated => {
                let id = match self.stage {
                    EndStage::LastReadRequested(id) => id,
                    _ => {
                        proof { assert(false); }
                        0
                    },
                };
                next.stage = EndStage::PublishRequested(id);
                (next, EndAction::Publish(self.user_id, self.item_id, self.pages_read, self.mode))
            },
            EndEvent::PublishDone => {
                let id = match self.stage {
                    EndStage::PublishRequested(id) => id,
                    _ => {
                        proof { assert(false); }
                        0
                    },
                };
                next.stage = EndStage::Finished;
                (next, EndAction::Respond(Ok(id)))
            },
        }
    }
}

} // verus!
