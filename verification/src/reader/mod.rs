//! The reader: progress through a book, highlights, reading sessions and
//! the guards of the reader's use cases.

pub mod highlight;
pub mod progress;
pub mod reading_session;
pub mod end_session;
pub mod use_cases;
