use vstd::prelude::*;

use crate::common::text::{joined, owned};

verus! {

/// Why a use case could not be carried out.
#[derive(Debug)]
pub enum AppError {
    /// The named resource does not exist (or is not the caller's).
    NotFound(String),
    /// The request is well formed but its values are refused.
    UnprocessableEntity(String),
    /// The caller may not act on the resource.
    Forbidden,
    /// Storage or another service failed.
    Internal(String),
}

impl AppError {
    /// The error for a missing `resource`.
    pub fn not_found(resource: &str) -> (res: AppError)
        ensures
            res matches AppError::NotFound(m) && m@ == resource@,
    {
        AppError::NotFound(owned(resource))
    }

    /// The error for refused values, with the message `message`.
    pub fn unprocessable_message(message: &str) -> (res: AppError)
        ensures
            res matches AppError::UnprocessableEntity(m) && m@ == message@,
    {
        AppError::UnprocessableEntity(owned(message))
    }

    /// The error for refused values, with the message `prefix` followed by
    /// `detail`.
    pub fn unprocessable(prefix: &str, detail: &str) -> (res: AppError)
        ensures
            res matches AppError::UnprocessableEntity(m) && m@ == prefix@ + detail@,
    {
        AppError::UnprocessableEntity(joined(prefix, detail))
    }
}

/// A name that stands for no value of the expected kind; the message
/// names the kind and repeats the name.
#[derive(Debug)]
pub struct UnknownName {
    pub message: String,
}

impl UnknownName {
    /// The error for `name`, with the message `prefix` followed by `name`.
    pub fn new(prefix: &str, name: &str) -> (res: UnknownName)
        ensures
            res.message@ == prefix@ + name@,
    {
        UnknownName { message: joined(prefix, name) }
    }
}

/// `found`'s value, or the error for a missing `resource`.
pub fn found_or_not_found<T>(found: Option<T>, resource: &str) -> (res: Result<T, AppError>)
    ensures
        found matches Some(v) ==> res == Ok::<T, AppError>(v),
        found is None ==> (res matches Err(AppError::NotFound(m)) && m@ == resource@),
{
    match found {
        Some(v) => Ok(v),
        None => Err(AppError::not_found(resource)),
    }
}

} // verus!
