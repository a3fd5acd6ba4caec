//! Plain-value types shared by every feature: calendar dates, clock
//! readings, identifiers, exact decimals, text helpers and the error type.

pub mod calendar;
pub mod clock;
pub mod decimal;
pub mod error;
pub mod ids;
pub mod text;
