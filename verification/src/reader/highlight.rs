use vstd::prelude::*;

use crate::common::clock::{now, Timestamp};
use crate::common::ids::{new_id, EntityId};

verus! {

/// A highlighted passage of a library item.
#[derive(Clone, Debug)]
pub struct Highlight {
    pub id: EntityId,
    pub library_item_id: EntityId,
    pub user_id: EntityId,
    pub color: String,
    pub locator_start: String,
    pub locator_end: String,
    pub selected_text: Option<String>,
    pub note: Option<String>,
    pub created_at: Timestamp,
    pub updated_at: Timestamp,
}

/// Why a highlight was refused.
#[derive(Clone, Copy, Debug, PartialEq, Eq, Structural)]
pub enum HighlightError {
    InvalidLocator,
}

impl Highlight {
    /// A new highlight without a note, with a new identifier, created now.
    pub fn new(
        library_item_id: EntityId,
        user_id: EntityId,
        color: String,
        locator_start: String,
        locator_end: String,
        selected_text: Option<String>,
    ) -> (res: Highlight)
        ensures
            res.library_item_id == library_item_id,
            res.user_id == user_id,
            res.color == color,
            res.locator_start == locator_start,
            res.locator_end == locator_end,
            res.selected_text == selected_text,
            res.note is None,
    {
        Highlight {
            id: new_id(),
            library_item_id,
            user_id,
            color,
            locator_start,
            locator_end,
            selected_text,
            note: None,
            created_at: now(),
            updated_at: now(),
        }
    }
}

} // verus!
