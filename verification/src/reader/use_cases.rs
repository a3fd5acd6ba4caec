use vstd::prelude::*;

use crate::common::error::{found_or_not_found, AppError};
use crate::common::ids::EntityId;
use crate::reader::highlight::Highlight;

verus! {

/// A bookmark to add to a library item.
pub struct AddBookmarkInput {
    pub locator: String,
    pub page: Option<i32>,
    pub label: Option<String>,
}

/// Adds a bookmark to one of the caller's library items.
pub struct AddBookmark<R> {
    pub repository: R,
}

/// A highlight to create on a library item.
pub struct CreateHighlightInput {
    pub color: String,
    pub locator_start: String,
    pub locator_end: String,
    pub selected_text: Option<String>,
}

/// Creates a highlight on one of the caller's library items.
pub struct CreateHighlight<R> {
    pub repository: R,
}

/// Lists the highlights of one of the caller's library items.
pub struct ListHighlights<R> {
    pub repository: R,
}

/// Saves the caller's position in one of their library items.
pub struct SaveProgress<R> {
    pub repository: R,
}

/// The request body that creates a highlight.
pub struct CreateHighlightRequest {
    pub color: String,
    pub locator_start: String,
    pub locator_end: String,
    pub selected_text: Option<String>,
}

/// The request body that adds a bookmark.
pub struct AddBookmarkRequest {
    pub locator: String,
    pub page: Option<i32>,
    pub label: Option<String>,
}

/// Every reader use case first loads the library item of the caller; a
/// missing item is answered with `NotFound("library item")`.
pub fn library_item_found<T>(found: Option<T>) -> (res: Result<T, AppError>)
    ensures
        found matches Some(v) ==> res == Ok::<T, AppError>(v),
        found is None ==> (res matches Err(AppError::NotFound(m)) && m@ == "library item"@),
{
    found_or_not_found(found, "library item")
}

impl<R> CreateHighlight<R> {
    /// The highlight to store on item `item_id` for `user_id`.
    pub fn highlight_to_create(&self, item_id: EntityId, user_id: EntityId, input: CreateHighlightInput) -> (res: Highlight)
        ensures
            res.library_item_id == item_id,
            res.user_id == user_id,
            res.color == input.color,
            res.locator_start == input.locator_start,
            res.locator_end == input.locator_end,
            res.selected_text == input.selected_text,
            res.note is None,
    {
        Highlight::new(item_id, user_id, input.color, input.locator_start, input.locator_end, input.selected_text)
    }
}

impl CreateHighlightRequest {
    /// The use case input with the request's fields.
    pub fn into_input(self) -> (res: CreateHighlightInput)
        ensures
            res.color == self.color,
            res.locator_start == self.locator_start,
            res.locator_end == self.locator_end,
            res.selected_text == self.selected_text,
    {
        CreateHighlightInput {
            color: self.color,
            locator_start: self.locator_start,
            locator_end: self.locator_end,
            selected_text: self.selected_text,
        }
    }
}

impl AddBookmarkRequest {
    /// The use case input with the request's fields.
    pub fn into_input(self) -> (res: AddBookmarkInput)
        ensures
            res.locator == self.locator,
            res.page == self.page,
            res.label == self.label,
    {
        AddBookmarkInput { locator: self.locator, page: self.page, label: self.label }
    }
}

} // verus!
