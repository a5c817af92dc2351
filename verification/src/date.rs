//! Calendar days of the proleptic Gregorian calendar, and days of the week.

use vstd::prelude::*;

verus! {

/// A calendar day, by its day number: 0001-01-01 is day 1, the day before it day 0.
#[derive(Debug, Clone, Copy, PartialEq, Eq, Hash, PartialOrd, Ord, Structural)]
pub struct Date {
    pub day_number: i32,
}

/// The first year the calendar library holds.
pub const MIN_YEAR: i32 = -262143i32;

/// The last year the calendar library holds.
pub const MAX_YEAR: i32 = 262142i32;

/// Whether `year` is a leap year: a multiple of 4 that is no multiple of 100,
/// or a multiple of 400.
pub open spec fn is_leap_year(year: int) -> bool {
    year % 4 == 0 && (year % 100 != 0 || year % 400 == 0)
}

/// The number of days of `month` (1-12) in `year`.
pub open spec fn days_in_month(year: int, month: int) -> int {
    if month == 2 {
        if is_leap_year(year) { 29 } else { 28 }
    } else if month == 4 || month == 6 || month == 9 || month == 11 {
        30
    } else {
        31
    }
}

/// The number of days of the months of `year` before `month`.
pub open spec fn days_before_month(year: int, month: int) -> int
    decreases month,
{
    if month <= 1 { 0 } else { days_before_month(year, month - 1) + days_in_month(year, month - 1) }
}

/// The number of days of the years from year 1 up to `year`, not included
/// (negative for years before year 1).
pub open spec fn days_before_year(year: int) -> int {
    let y = year - 1;
    365 * y + y / 4 - y / 100 + y / 400
}

/// Whether year-month-day is a day of the proleptic Gregorian calendar.
pub open spec fn is_calendar_date(year: int, month: int, day: int) -> bool {
    1 <= month <= 12 && 1 <= day <= days_in_month(year, month)
}

/// The day number of year-month-day: 0001-01-01 is day 1.
pub open spec fn gregorian_day_number(year: int, month: int, day: int) -> int {
    days_before_year(year) + days_before_month(year, month) + day
}

/// Calls `chrono::NaiveDate::from_ymd_opt` and, on a date, its
/// `Datelike::num_days_from_ce`. As the documentation and source show, there is a
/// date exactly when year-month-day is a calendar day in the library's range of
/// years, and its number counts days in the proleptic Gregorian calendar from
/// 0001-01-01, day 1.
#[verifier::external_body]
fn chrono_day_number(year: i32, month: u32, day: u32) -> (r: Option<i32>)
    ensures
        r is Some <==> (MIN_YEAR <= year <= MAX_YEAR && is_calendar_date(year as int, month as int, day as int)),
        r matches Some(n) ==> n == gregorian_day_number(year as int, month as int, day as int),
{
    match chrono::NaiveDate::from_ymd_opt(year, month, day) {
        Some(date) => Some(chrono::Datelike::num_days_from_ce(&date)),
        None => None,
    }
}

/// The day number of 1970-01-01, the first day that Unix time counts.
pub const UNIX_EPOCH_DAY: i32 = 719_163i32;

/// Calls `chrono::NaiveDate::from_epoch_days` and, on a date, its
/// `Datelike::num_days_from_ce`. As the documentation and source show, there is a
/// date exactly when the day `days` after 1970-01-01 lies in the library's range
/// of years, and it is that day.
#[verifier::external_body]
fn chrono_epoch_day_number(days: i32) -> (r: Option<i32>)
    ensures
        r is Some <==> (days_before_year(MIN_YEAR as int) < days + UNIX_EPOCH_DAY <= days_before_year(
            MAX_YEAR + 1,
        )),
        r matches Some(n) ==> n == days + UNIX_EPOCH_DAY,
{
    match chrono::NaiveDate::from_epoch_days(days) {
        Some(date) => Some(chrono::Datelike::num_days_from_ce(&date)),
        None => None,
    }
}

/// A day of the week.
#[derive(Debug, Clone, Copy, PartialEq, Eq, Hash, Structural)]
pub enum Weekday {
    Mon,
    Tue,
    Wed,
    Thu,
    Fri,
    Sat,
    Sun,
}

impl Weekday {
    /// Days since Monday: 0 for Monday to 6 for Sunday.
    pub open spec fn index(self) -> int {
        match self {
            Weekday::Mon => 0,
            Weekday::Tue => 1,
            Weekday::Wed => 2,
            Weekday::Thu => 3,
            Weekday::Fri => 4,
            Weekday::Sat => 5,
            Weekday::Sun => 6,
        }
    }

    /// The day of the week `n` days after Monday, for `n` in 0..7.
    pub open spec fn from_index(n: int) -> Weekday {
        if n == 0 { Weekday::Mon }
        else if n == 1 { Weekday::Tue }
        else if n == 2 { Weekday::Wed }
        else if n == 3 { Weekday::Thu }
        else if n == 4 { Weekday::Fri }
        else if n == 5 { Weekday::Sat }
        else { Weekday::Sun }
    }

    /// Days since Monday: 0 for Monday to 6 for Sunday.
    pub fn num_days_from_monday(&self) -> (r: u32)
        ensures
            r == self.index(),
    {
        match self {
            Weekday::Mon => 0,
            Weekday::Tue => 1,
            Weekday::Wed => 2,
            Weekday::Thu => 3,
            Weekday::Fri => 4,
            Weekday::Sat => 5,
            Weekday::Sun => 6,
        }
    }

    /// The ISO number of the day: 1 for Monday to 7 for Sunday.
    pub fn to_iso(&self) -> (r: i32)
        ensures
            r == self.index() + 1,
    {
        self.num_days_from_monday() as i32 + 1
    }

    /// The day of an ISO number: 1-6 are Monday to Saturday, every other number is Sunday.
    pub open spec fn spec_from_iso(n: int) -> Weekday {
        if 1 <= n <= 6 { Weekday::from_index(n - 1) } else { Weekday::Sun }
    }

    /// The day of an ISO number: 1-6 are Monday to Saturday, every other number is Sunday.
    pub fn from_iso(n: i32) -> (r: Weekday)
        ensures
            r == Weekday::spec_from_iso(n as int),
            1 <= n <= 6 ==> r.index() == n - 1,
            !(1 <= n <= 6) ==> r == Weekday::Sun,
    {
        match n {
            1 => Weekday::Mon,
            2 => Weekday::Tue,
            3 => Weekday::Wed,
            4 => Weekday::Thu,
            5 => Weekday::Fri,
            6 => Weekday::Sat,
            _ => Weekday::Sun,
        }
    }
}

impl Date {
    /// The day of the week: day 1, 0001-01-01, was a Monday.
    pub open spec fn spec_weekday(self) -> Weekday {
        Weekday::from_index((self.day_number - 1) % 7)
    }

    /// The day with this day number.
    pub fn from_day_number(day_number: i32) -> (r: Date)
        ensures
            r.day_number == day_number,
    {
        Date { day_number }
    }

    /// The day `days` days after 1970-01-01, as a date on the wire names it; 1970-01-01
    /// itself when the calendar's range does not hold that day.
    pub fn from_epoch_days(days: i32) -> (r: Date)
        ensures
            r.day_number == if days_before_year(MIN_YEAR as int) < days + UNIX_EPOCH_DAY <= days_before_year(
                MAX_YEAR + 1,
            ) {
                days + UNIX_EPOCH_DAY
            } else {
                UNIX_EPOCH_DAY as int
            },
    {
        match chrono_epoch_day_number(days) {
            Some(n) => Date { day_number: n },
            None => Date { day_number: UNIX_EPOCH_DAY },
        }
    }

    /// The number of days from 1970-01-01 to the day (negative before it).
    pub fn to_epoch_days(&self) -> (r: i32)
        requires
            self.day_number >= i32::MIN + UNIX_EPOCH_DAY,
        ensures
            r == self.day_number - UNIX_EPOCH_DAY,
    {
        self.day_number - UNIX_EPOCH_DAY
    }

    /// The day year-month-day, or `None` when the calendar has no such day or
    /// the year is out of its range.
    pub fn from_ymd(year: i32, month: u32, day: u32) -> (r: Option<Date>)
        ensures
            r is Some <==> MIN_YEAR <= year <= MAX_YEAR && is_calendar_date(year as int, month as int, day as int),
            r matches Some(d) ==> d.day_number == gregorian_day_number(year as int, month as int, day as int),
    {
        match chrono_day_number(year, month, day) {
            Some(n) => Some(Date { day_number: n }),
            None => None,
        }
    }

    /// The day of the week.
    pub fn weekday(&self) -> (r: Weekday)
        ensures
            r == self.spec_weekday(),
    {
        let m = (self.day_number as i64 + 6) % 7;
        let m = if m < 0 { m + 7 } else { m };
        match m {
            0 => Weekday::Mon,
            1 => Weekday::Tue,
            2 => Weekday::Wed,
            3 => Weekday::Thu,
            4 => Weekday::Fri,
            5 => Weekday::Sat,
            _ => Weekday::Sun,
        }
    }
}

} // verus!
