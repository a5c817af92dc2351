//! Check-in and check-out events of a work day.

use vstd::prelude::*;
use crate::local_time::LocalTime;

verus! {

/// A check-in or a check-out at a time of day.
#[derive(Debug, Clone, Copy, PartialEq, Eq, Hash, Structural)]
pub enum Event {
    CheckIn(LocalTime),
    CheckOut(LocalTime),
}

impl Event {
    /// The time of the event.
    pub open spec fn spec_time(self) -> LocalTime {
        match self {
            Event::CheckIn(t) => t,
            Event::CheckOut(t) => t,
        }
    }

    /// The time of the event.
    pub fn time(&self) -> (r: &LocalTime)
        ensures
            *r == self.spec_time(),
    {
        match self {
            Event::CheckIn(time) => time,
            Event::CheckOut(time) => time,
        }
    }

    /// Whether the event is a check-in.
    pub fn is_check_in(&self) -> (r: bool)
        ensures
            r == (*self is CheckIn),
    {
        match self {
            Event::CheckIn(_) => true,
            _ => false,
        }
    }

    /// Whether the event is a check-out.
    pub fn is_check_out(&self) -> (r: bool)
        ensures
            r == (*self is CheckOut),
    {
        match self {
            Event::CheckOut(_) => true,
            _ => false,
        }
    }
}

} // verus!
