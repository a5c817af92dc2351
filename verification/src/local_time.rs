//! A time of day on the wall clock, to the second.

use vstd::prelude::*;
use crate::error::Error;

verus! {

/// A time of day: hour 0-23, minute 0-59, second 0-59.
#[derive(Debug, Clone, Copy, PartialEq, Eq, Hash, Structural)]
pub struct LocalTime {
    pub hour: u32,
    pub minute: u32,
    pub second: u32,
}

impl LocalTime {
    /// Whether the fields name a time of day.
    pub open spec fn is_valid(self) -> bool {
        self.hour <= 23 && self.minute <= 59 && self.second <= 59
    }

    /// Seconds since midnight.
    pub open spec fn seconds_of_day(self) -> int {
        self.hour * 3600 + self.minute * 60 + self.second
    }

    /// Creates a time of day.
    ///
    /// # Errors
    ///
    /// `InvalidTime(hour, minute, second)` when the hour is above 23 or the
    /// minute or second above 59.
    pub fn new(hour: u32, minute: u32, second: u32) -> (r: Result<LocalTime, Error>)
        ensures
            (hour > 23 || minute > 59 || second > 59) <==> r is Err,
            r matches Err(e) ==> e == Error::InvalidTime(hour, minute, second),
            r matches Ok(t) ==> t == (LocalTime { hour, minute, second }),
    {
        if hour > 23 || minute > 59 || second > 59 {
            return Err(Error::InvalidTime(hour, minute, second));
        }
        Ok(LocalTime { hour, minute, second })
    }

    /// Seconds since midnight, when the fields name a time of day.
    ///
    /// # Errors
    ///
    /// `InvalidTime(hour, minute, second)` when they do not.
    pub fn checked_seconds_of_day(&self) -> (r: Result<u32, Error>)
        ensures
            self.is_valid() <==> r is Ok,
            r matches Err(e) ==> e == Error::InvalidTime(self.hour, self.minute, self.second),
            r matches Ok(s) ==> s == self.seconds_of_day(),
    {
        if self.hour > 23 || self.minute > 59 || self.second > 59 {
            return Err(Error::InvalidTime(self.hour, self.minute, self.second));
        }
        Ok(self.hour * 3600 + self.minute * 60 + self.second)
    }
}

} // verus!
