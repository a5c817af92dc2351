//! A work day: its check-in/check-out events, flags and the time it requires.

use vstd::prelude::*;
use crate::balance::Balance;
use crate::date::Date;
use crate::day_flags::{DayFlags, lemma_flag_bits};
use crate::duration::{Duration, in_range, NANOS_PER_SEC};
use crate::error::Error;
use crate::event::Event;
use crate::local_time::LocalTime;

verus! {

/// A work day.
#[derive(Debug)]
pub struct Day {
    pub date: Date,
    pub events: Vec<Event>,
    pub flags: DayFlags,
    pub required_work_hours: Duration,
    pub lunch_break_duration: Duration,
}

impl View for Day {
    type V = (Date, Seq<Event>, DayFlags, Duration, Duration);

    /// The date, the events, the flags, the required time and the lunch break.
    open spec fn view(&self) -> Self::V {
        (self.date, self.events@, self.flags, self.required_work_hours, self.lunch_break_duration)
    }
}

impl Clone for Day {
    fn clone(&self) -> (r: Day)
        ensures
            r@ == self@,
    {
        let mut events: Vec<Event> = Vec::new();
        let mut i: usize = 0;
        while i < self.events.len()
            invariant
                i <= self.events.len(),
                events@ == self.events@.take(i as int),
            decreases self.events.len() - i,
        {
            events.push(self.events[i]);
            proof {
                assert(self.events@.take(i + 1) =~= self.events@.take(i as int).push(self.events@[i as int]));
            }
            i = i + 1;
        }
        assert(self.events@.take(i as int) =~= self.events@);
        let r = Day {
            date: self.date,
            events,
            flags: self.flags,
            required_work_hours: self.required_work_hours,
            lunch_break_duration: self.lunch_break_duration,
        };
        assert(r.events@ =~= self.events@);
        r
    }
}

/// The time of the first check-in.
pub open spec fn first_check_in_of(events: Seq<Event>) -> Option<LocalTime>
    decreases events.len(),
{
    if events.len() == 0 {
        None
    } else if events[0] is CheckIn {
        Some(events[0]->CheckIn_0)
    } else {
        first_check_in_of(events.drop_first())
    }
}

/// The time of the last check-out.
pub open spec fn last_check_out_of(events: Seq<Event>) -> Option<LocalTime>
    decreases events.len(),
{
    if events.len() == 0 {
        None
    } else if events.last() is CheckOut {
        Some(events.last()->CheckOut_0)
    } else {
        last_check_out_of(events.drop_last())
    }
}

/// No two neighbouring events are of the same kind.
pub open spec fn alternating(events: Seq<Event>) -> bool {
    forall|i: int| 0 <= i < events.len() - 1 ==> (#[trigger] events[i] is CheckIn) != (events[i + 1] is CheckIn)
}

/// The lunch break that is subtracted: the break when positive, else none.
pub open spec fn counted_break(lunch: int) -> int {
    if lunch > 0 { lunch } else { 0 }
}

/// Nanoseconds from the first check-in to the last check-out, less the lunch break.
pub open spec fn span_less_break(check_in: LocalTime, check_out: LocalTime, lunch: int) -> int {
    (check_out.seconds_of_day() - check_in.seconds_of_day()) * NANOS_PER_SEC - counted_break(lunch)
}

impl Day {
    /// Whether the weekend flag is set.
    pub open spec fn spec_is_weekend(&self) -> bool {
        self.flags@ & 1 == 1
    }

    /// Whether the remote flag is set.
    pub open spec fn spec_is_remote(&self) -> bool {
        self.flags@ & 4 == 4
    }

    /// Whether the day-off flag is set.
    pub open spec fn spec_is_day_off(&self) -> bool {
        self.flags@ & 2 == 2
    }

    /// What `work_hours` gives, in nanoseconds: `None` on a weekend, a day off or
    /// a day without check-in, the required time on a remote day, else the span from the
    /// first check-in to the last check-out less the lunch break.
    pub open spec fn spec_work_hours(&self) -> Result<Option<int>, Error> {
        if self.spec_is_weekend() {
            Ok(None)
        } else if self.spec_is_day_off() {
            Ok(None)
        } else if self.spec_is_remote() {
            Ok(Some(self.required_work_hours@))
        } else {
            match (first_check_in_of(self.events@), last_check_out_of(self.events@)) {
                (None, _) => Ok(None),
                (Some(_), None) => Err(Error::CheckOutNotFound),
                (Some(i), Some(o)) => if !i.is_valid() {
                    Err(Error::InvalidTime(i.hour, i.minute, i.second))
                } else if !o.is_valid() {
                    Err(Error::InvalidTime(o.hour, o.minute, o.second))
                } else {
                    Ok(Some(span_less_break(i, o, self.lunch_break_duration@)))
                },
            }
        }
    }

    /// The worked time, when known, fits in a `Duration`.
    pub open spec fn work_hours_in_range(&self) -> bool {
        self.spec_work_hours() matches Ok(Some(w)) ==> in_range(w)
    }

    /// The worked time (zero when there is none) less the required time fits in a `Duration`.
    pub open spec fn balance_in_range(&self) -> bool {
        &&& self.work_hours_in_range()
        &&& (self.spec_work_hours() matches Ok(w) ==> in_range(
            (match w { Some(n) => n, None => 0 }) - self.required_work_hours@,
        ))
    }

    /// Whether the day falls on a weekend.
    pub fn is_weekend(&self) -> (r: bool)
        ensures
            r == self.spec_is_weekend(),
    {
        self.flags.contains(DayFlags::weekend())
    }

    /// Marks the day as a weekend day.
    pub fn set_weekend(&mut self)
        ensures
            final(self).flags@ == old(self).flags@ | 1,
            final(self).spec_is_weekend(),
            final(self).spec_is_remote() == old(self).spec_is_remote(),
            final(self).spec_is_day_off() == old(self).spec_is_day_off(),
            final(self).events == old(self).events,
            final(self).date == old(self).date,
            final(self).required_work_hours == old(self).required_work_hours,
            final(self).lunch_break_duration == old(self).lunch_break_duration,
    {
        self.flags.insert(DayFlags::weekend());
        proof { lemma_flag_bits(old(self).flags@); }
    }

    /// Clears the weekend flag.
    pub fn clear_weekend(&mut self)
        ensures
            final(self).flags@ == old(self).flags@ & !1u32,
            !final(self).spec_is_weekend(),
            final(self).spec_is_remote() == old(self).spec_is_remote(),
            final(self).spec_is_day_off() == old(self).spec_is_day_off(),
            final(self).events == old(self).events,
            final(self).date == old(self).date,
            final(self).required_work_hours == old(self).required_work_hours,
            final(self).lunch_break_duration == old(self).lunch_break_duration,
    {
        self.flags.remove(DayFlags::weekend());
        proof { lemma_flag_bits(old(self).flags@); }
    }

    /// Whether the day is worked remotely.
    pub fn is_remote(&self) -> (r: bool)
        ensures
            r == self.spec_is_remote(),
    {
        self.flags.contains(DayFlags::remote())
    }

    /// Marks the day as worked remotely.
    pub fn set_remote(&mut self)
        ensures
            final(self).flags@ == old(self).flags@ | 4,
            final(self).spec_is_remote(),
            final(self).spec_is_weekend() == old(self).spec_is_weekend(),
            final(self).spec_is_day_off() == old(self).spec_is_day_off(),
            final(self).events == old(self).events,
            final(self).date == old(self).date,
            final(self).required_work_hours == old(self).required_work_hours,
            final(self).lunch_break_duration == old(self).lunch_break_duration,
    {
        self.flags.insert(DayFlags::remote());
        proof { lemma_flag_bits(old(self).flags@); }
    }

    /// Clears the remote flag.
    pub fn clear_remote(&mut self)
        ensures
            final(self).flags@ == old(self).flags@ & !4u32,
            !final(self).spec_is_remote(),
            final(self).spec_is_weekend() == old(self).spec_is_weekend(),
            final(self).spec_is_day_off() == old(self).spec_is_day_off(),
            final(self).events == old(self).events,
            final(self).date == old(self).date,
            final(self).required_work_hours == old(self).required_work_hours,
            final(self).lunch_break_duration == old(self).lunch_break_duration,
    {
        self.flags.remove(DayFlags::remote());
        proof { lemma_flag_bits(old(self).flags@); }
    }

    /// Whether the day is a day off.
    pub fn is_day_off(&self) -> (r: bool)
        ensures
            r == self.spec_is_day_off(),
    {
        self.flags.contains(DayFlags::day_off())
    }

    /// Marks the day as a day off.
    pub fn set_day_off(&mut self)
        ensures
            final(self).flags@ == old(self).flags@ | 2,
            final(self).spec_is_day_off(),
            final(self).spec_is_weekend() == old(self).spec_is_weekend(),
            final(self).spec_is_remote() == old(self).spec_is_remote(),
            final(self).events == old(self).events,
            final(self).date == old(self).date,
            final(self).required_work_hours == old(self).required_work_hours,
            final(self).lunch_break_duration == old(self).lunch_break_duration,
    {
        self.flags.insert(DayFlags::day_off());
        proof { lemma_flag_bits(old(self).flags@); }
    }

    /// Clears the day-off flag.
    pub fn clear_day_off(&mut self)
        ensures
            final(self).flags@ == old(self).flags@ & !2u32,
            !final(self).spec_is_day_off(),
            final(self).spec_is_weekend() == old(self).spec_is_weekend(),
            final(self).spec_is_remote() == old(self).spec_is_remote(),
            final(self).events == old(self).events,
            final(self).date == old(self).date,
            final(self).required_work_hours == old(self).required_work_hours,
            final(self).lunch_break_duration == old(self).lunch_break_duration,
    {
        self.flags.remove(DayFlags::day_off());
        proof { lemma_flag_bits(old(self).flags@); }
    }

    /// The time of the first check-in of the day.
    pub fn first_check_in(&self) -> (r: Option<&LocalTime>)
        ensures
            r matches Some(t) ==> first_check_in_of(self.events@) == Some(*t),
            r is None ==> first_check_in_of(self.events@) is None,
    {
        let mut i: usize = 0;
        assert(self.events@.skip(0) =~= self.events@);
        while i < self.events.len()
            invariant
                i <= self.events.len(),
                first_check_in_of(self.events@) == first_check_in_of(self.events@.skip(i as int)),
            decreases self.events.len() - i,
        {
            assert(self.events@.skip(i as int).drop_first() =~= self.events@.skip(i + 1));
            match &self.events[i] {
                Event::CheckIn(time) => {
                    return Some(time);
                },
                _ => {},
            }
            i = i + 1;
        }
        None
    }

    /// The time of the last check-out of the day.
    pub fn last_check_out(&self) -> (r: Option<&LocalTime>)
        ensures
            r matches Some(t) ==> last_check_out_of(self.events@) == Some(*t),
            r is None ==> last_check_out_of(self.events@) is None,
    {
        let mut i: usize = self.events.len();
        assert(self.events@.take(i as int) =~= self.events@);
        while i > 0
            invariant
                i <= self.events.len(),
                last_check_out_of(self.events@) == last_check_out_of(self.events@.take(i as int)),
            decreases i,
        {
            assert(self.events@.take(i as int).drop_last() =~= self.events@.take(i - 1));
            match &self.events[i - 1] {
                Event::CheckOut(time) => {
                    return Some(time);
                },
                _ => {},
            }
            i = i - 1;
        }
        None
    }

    /// Adds a check-in or a check-out.
    ///
    /// # Errors
    ///
    /// `InvalidCheckInOutSequence` when the last event is of the same kind.
    pub fn add_event(&mut self, event: Event) -> (r: Result<(), Error>)
        ensures
            (old(self).events@.len() > 0 && (old(self).events@.last() is CheckIn) == (event is CheckIn)) <==> r is Err,
            r matches Err(e) ==> e == Error::InvalidCheckInOutSequence(old(self).events@.last(), event),
            r is Err ==> final(self).events@ == old(self).events@,
            r is Ok ==> final(self).events@ == old(self).events@.push(event),
            alternating(old(self).events@) ==> alternating(final(self).events@),
            final(self).flags == old(self).flags,
            final(self).date == old(self).date,
            final(self).required_work_hours == old(self).required_work_hours,
            final(self).lunch_break_duration == old(self).lunch_break_duration,
    {
        match event {
            Event::CheckIn(time) => self.add_check_in(time),
            Event::CheckOut(time) => self.add_check_out(time),
        }
    }

    /// Adds a check-in.
    ///
    /// # Errors
    ///
    /// `InvalidCheckInOutSequence` when the last event is a check-in.
    pub fn add_check_in(&mut self, time: LocalTime) -> (r: Result<(), Error>)
        ensures
            (old(self).events@.len() > 0 && old(self).events@.last() is CheckIn) <==> r is Err,
            r matches Err(e) ==> e == Error::InvalidCheckInOutSequence(old(self).events@.last(), Event::CheckIn(time)),
            r is Err ==> final(self).events@ == old(self).events@,
            r is Ok ==> final(self).events@ == old(self).events@.push(Event::CheckIn(time)),
            alternating(old(self).events@) ==> alternating(final(self).events@),
            final(self).flags == old(self).flags,
            final(self).date == old(self).date,
            final(self).required_work_hours == old(self).required_work_hours,
            final(self).lunch_break_duration == old(self).lunch_break_duration,
    {
        let n = self.events.len();
        if n > 0 && self.events[n - 1].is_check_in() {
            return Err(Error::InvalidCheckInOutSequence(self.events[n - 1], Event::CheckIn(time)));
        }
        self.events.push(Event::CheckIn(time));
        Ok(())
    }

    /// Adds a check-out.
    ///
    /// # Errors
    ///
    /// `InvalidCheckInOutSequence` when the last event is a check-out.
    pub fn add_check_out(&mut self, time: LocalTime) -> (r: Result<(), Error>)
        ensures
            (old(self).events@.len() > 0 && old(self).events@.last() is CheckOut) <==> r is Err,
            r matches Err(e) ==> e == Error::InvalidCheckInOutSequence(old(self).events@.last(), Event::CheckOut(time)),
            r is Err ==> final(self).events@ == old(self).events@,
            r is Ok ==> final(self).events@ == old(self).events@.push(Event::CheckOut(time)),
            alternating(old(self).events@) ==> alternating(final(self).events@),
            final(self).flags == old(self).flags,
            final(self).date == old(self).date,
            final(self).required_work_hours == old(self).required_work_hours,
            final(self).lunch_break_duration == old(self).lunch_break_duration,
    {
        let n = self.events.len();
        if n > 0 && self.events[n - 1].is_check_out() {
            return Err(Error::InvalidCheckInOutSequence(self.events[n - 1], Event::CheckOut(time)));
        }
        self.events.push(Event::CheckOut(time));
        Ok(())
    }

    /// Calculates the worked time of the day.
    ///
    /// `None` on a weekend, on a day off and on a day without check-in; the required time on a
    /// remote day; else the span from the **first** check-in to the **last**
    /// check-out less the lunch break (when the break is positive).
    ///
    /// # Errors
    ///
    /// `CheckOutNotFound` when there is a check-in but no check-out, `InvalidTime`
    /// when the first check-in or last check-out is no time of day.
    pub fn work_hours(&self) -> (r: Result<Option<Duration>, Error>)
        requires
            self.work_hours_in_range(),
        ensures
            match self.spec_work_hours() {
                Ok(None) => r matches Ok(None),
                Ok(Some(w)) => r matches Ok(Some(d)) && d@ == w,
                Err(e) => r matches Err(e2) && e2 == e,
            },
    {
        if self.is_weekend() {
            return Ok(None);
        }
        if self.is_day_off() {
            return Ok(None);
        }
        if self.is_remote() {
            return Ok(Some(self.required_work_hours));
        }
        let (check_in, check_out) = match (self.first_check_in(), self.last_check_out()) {
            (None, _) => return Ok(None),
            (Some(_), None) => return Err(Error::CheckOutNotFound),
            (Some(in_lt), Some(out_lt)) => {
                let in_s = match in_lt.checked_seconds_of_day() {
                    Ok(s) => s,
                    Err(e) => return Err(e),
                };
                let out_s = match out_lt.checked_seconds_of_day() {
                    Ok(s) => s,
                    Err(e) => return Err(e),
                };
                (in_s, out_s)
            },
        };
        let work_hours = Duration::seconds(check_out as i64 - check_in as i64);
        let lunch_break = if self.lunch_break_duration().is_positive() {
            self.lunch_break_duration()
        } else {
            Duration::zero()
        };
        Ok(Some(work_hours.minus(lunch_break)))
    }

    /// The time the day requires.
    pub fn required_work_hours(&self) -> (r: Duration)
        ensures
            r == self.required_work_hours,
    {
        self.required_work_hours
    }

    /// The lunch break of the day.
    pub fn lunch_break_duration(&self) -> (r: Duration)
        ensures
            r == self.lunch_break_duration,
    {
        self.lunch_break_duration
    }

    /// The balance of the day: the worked time (zero when there is none) against
    /// the required time.
    ///
    /// # Errors
    ///
    /// The errors of [`Day::work_hours`].
    pub fn balance(&self) -> (r: Result<Balance, Error>)
        requires
            self.balance_in_range(),
        ensures
            match self.spec_work_hours() {
                Ok(w) => r matches Ok(b) && b.canonical(
                    (match w { Some(n) => n, None => 0 }) - self.required_work_hours@,
                ),
                Err(e) => r matches Err(e2) && e2 == e,
            },
    {
        let worked = match self.work_hours() {
            Ok(Some(d)) => d,
            Ok(None) => Duration::zero(),
            Err(e) => return Err(e),
        };
        Ok(Balance::calculate(worked, self.required_work_hours()))
    }
}

/// A remote day (that is neither a weekend nor a day off) counts as its required
/// time, whatever its events: its worked
/// time is the required time and its balance is exact.
pub proof fn lemma_remote_day_is_balanced(day: Day)
    requires
        in_range(day.required_work_hours@),
        !day.spec_is_weekend(),
        !day.spec_is_day_off(),
        day.spec_is_remote(),
    ensures
        day.spec_work_hours() == Ok::<Option<int>, Error>(Some(day.required_work_hours@)),
        day.balance_in_range(),
        Balance::spec_from_delta(day.required_work_hours@ - day.required_work_hours@) is Exact,
{
}

/// A weekend day or a day off counts no worked time, whatever its events: its
/// balance is undertime by its required time (exact when nothing is required).
pub proof fn lemma_day_off_or_weekend_owes_required(day: Day)
    requires
        in_range(day.required_work_hours@),
        day.spec_is_weekend() || day.spec_is_day_off(),
    ensures
        day.spec_work_hours() == Ok::<Option<int>, Error>(None),
        day.balance_in_range(),
        Balance::spec_from_delta(0 - day.required_work_hours@).delta() == -day.required_work_hours@,
{
    crate::balance::lemma_from_delta_canonical(0 - day.required_work_hours@);
}

} // verus!
