//! Errors of the work-day model.

use vstd::prelude::*;
use crate::event::Event;

verus! {

/// Errors of the schema conversions (missing fields, unknown names).
#[derive(Debug, Clone, PartialEq, Eq)]
pub enum SchemaError {
    /// A weekday must be specified
    InvalidWeekday,
    /// An invalid or unknown time zone
    InvalidTz(String),
    /// A required field is missing
    MissingField(&'static str),
    /// Any other schema error
    Generic(String),
}

/// Errors of the work-day model.
#[derive(Debug, Clone)]
pub enum Error {
    /// Invalid time: hour, minute, second
    InvalidTime(u32, u32, u32),
    /// A check-in must be followed by a check-out and vice versa: the last event, the rejected one
    InvalidCheckInOutSequence(Event, Event),
    /// The UID text has an uneven number of bytes (the count)
    UidUnevenLength(usize),
    /// The UID text holds a pair that is no hex byte
    InvalidUidHex,
    /// The UID is neither 4, 7 nor 10 bytes long (the byte count)
    InvalidUidLength(usize),
    /// A check-in has no check-out after it
    CheckOutNotFound,
    /// A schema conversion failed
    Schema(SchemaError),
}

} // verus!
