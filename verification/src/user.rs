//! Users, their settings and the days they start.

use vstd::prelude::*;
use crate::date::{Date, Weekday};
use crate::day::Day;
use crate::day_flags::{DayFlags, lemma_flag_bits};
use crate::duration::Duration;
use crate::uid::Uid;
use crate::duration::{NANOS_PER_SEC, in_range};

verus! {

/// A registered user.
#[derive(Debug, Clone)]
pub struct User {
    /// The user's id, the 128 bits of a UUID.
    pub id: u128,
    pub name: String,
    pub email: String,
    pub organization: Option<String>,
    /// The name of the user's time zone in the IANA database.
    pub time_zone: String,
    /// When the account was made, in seconds since the Unix epoch.
    pub created_at: i64,
    /// When the user was last seen, in seconds since the Unix epoch.
    pub last_seen: Option<i64>,
    pub rfid_uid: Option<Uid>,
    pub settings: UserSettings,
}

/// A user's login data.
#[derive(Debug, Clone)]
pub struct UserCredentials {
    pub id: u128,
    pub email: String,
    pub password_hash: String,
}

/// What a user's days require, and which days are weekend or remote days.
#[derive(Debug, Clone)]
pub struct UserSettings {
    pub required_work_hours: Duration,
    pub lunch_break_duration: Duration,
    pub weekends: Vec<Weekday>,
    pub remote_days: Vec<Weekday>,
}

impl View for UserSettings {
    type V = (Duration, Duration, Seq<Weekday>, Seq<Weekday>);

    /// The required time, the lunch break, the weekend days and the remote days.
    open spec fn view(&self) -> Self::V {
        (self.required_work_hours, self.lunch_break_duration, self.weekends@, self.remote_days@)
    }
}

impl UserSettings {
    /// The default settings: eight required hours, a thirty-minute lunch break,
    /// Saturday and Sunday as the weekend and no remote day.
    pub open spec fn spec_default() -> (Duration, Duration, Seq<Weekday>, Seq<Weekday>) {
        (
            Duration::spec_from_nanos(8 * 3600 * 1_000_000_000int),
            Duration::spec_from_nanos(30 * 60 * 1_000_000_000int),
            seq![Weekday::Sat, Weekday::Sun],
            Seq::<Weekday>::empty(),
        )
    }
}

impl Default for UserSettings {
    /// Eight required hours, a thirty-minute lunch break, Saturday and Sunday
    /// as the weekend and no remote day.
    fn default() -> (r: UserSettings)
        ensures
            r.required_work_hours@ == 8 * 3600 * 1_000_000_000,
            r.lunch_break_duration@ == 30 * 60 * 1_000_000_000,
            r.weekends@ == seq![Weekday::Sat, Weekday::Sun],
            r.remote_days@ == Seq::<Weekday>::empty(),
            r@ == UserSettings::spec_default(),
    {
        let weekends: Vec<Weekday> = vec![Weekday::Sat, Weekday::Sun];
        let r = UserSettings {
            required_work_hours: Duration::hours(8),
            lunch_break_duration: Duration::minutes(30),
            weekends,
            remote_days: Vec::new(),
        };
        proof {
            Duration::lemma_view_from_nanos(r.required_work_hours);
            Duration::lemma_view_from_nanos(r.lunch_break_duration);
        }
        r
    }
}

/// Whether `day` is one of `days`.
fn lists_day(days: &Vec<Weekday>, day: Weekday) -> (r: bool)
    ensures
        r == days@.contains(day),
{
    let mut i: usize = 0;
    while i < days.len()
        invariant
            i <= days.len(),
            forall|j: int| 0 <= j < i ==> days@[j] != day,
        decreases days.len() - i,
    {
        if days[i] == day {
            return true;
        }
        i = i + 1;
    }
    false
}

/// The flag bits of a new day on `weekday` for a user with these weekend and remote days.
pub open spec fn new_day_flags(weekends: Seq<Weekday>, remote_days: Seq<Weekday>, weekday: Weekday) -> u32 {
    (if weekends.contains(weekday) { 1u32 } else { 0u32 }) | (if remote_days.contains(weekday) { 4u32 } else { 0u32 })
}

impl User {
    /// A day of this user with no event: flagged as a weekend when its weekday is
    /// one of the user's weekends, as remote when it is one of the remote days, and
    /// with the user's required hours and lunch break.
    pub fn new_day(&self, date: Date) -> (r: Day)
        ensures
            r.date == date,
            r.events@ == Seq::<crate::event::Event>::empty(),
            r.flags@ == new_day_flags(self.settings.weekends@, self.settings.remote_days@, date.spec_weekday()),
            r.required_work_hours == self.settings.required_work_hours,
            r.lunch_break_duration == self.settings.lunch_break_duration,
    {
        let weekday = date.weekday();
        let mut flags = DayFlags::empty();
        let on_weekend = lists_day(&self.settings.weekends, weekday);
        let on_remote = lists_day(&self.settings.remote_days, weekday);
        if on_weekend {
            flags.insert(DayFlags::weekend());
        }
        if on_remote {
            flags.insert(DayFlags::remote());
        }
        proof {
            lemma_flag_bits(0);
            assert((0u32 | 1u32) | 4u32 == 5u32) by (bit_vector);
            assert(0u32 | 4u32 == 4u32) by (bit_vector);
            assert(0u32 | 1u32 == 1u32) by (bit_vector);
            assert(1u32 | 4u32 == 5u32) by (bit_vector);
            assert(1u32 | 0u32 == 1u32) by (bit_vector);
            assert(0u32 | 0u32 == 0u32) by (bit_vector);
        }
        Day {
            date,
            events: Vec::new(),
            flags,
            required_work_hours: self.settings.required_work_hours,
            lunch_break_duration: self.settings.lunch_break_duration,
        }
    }
}

/// Whether `name` names a time zone of the IANA database, as the time-zone
/// library knows them.
pub uninterp spec fn tz_known(name: Seq<char>) -> bool;

/// Parses `name` as a `chrono_tz::Tz`: whether the library knows the zone. The
/// result is named by `tz_known`.
#[verifier::external_body]
pub(crate) fn time_zone_known(name: &str) -> (r: bool)
    ensures
        r == tz_known(name@),
{
    name.parse::<chrono_tz::Tz>().is_ok()
}

/// A user as the database stores it: durations in whole seconds, days of the week
/// as ISO numbers, times in seconds since the Unix epoch.
#[derive(Debug, Clone)]
pub struct UserRow {
    pub id: u128,
    pub name: String,
    pub email: String,
    pub organization: Option<String>,
    pub time_zone: String,
    pub created_at: i64,
    pub last_seen: Option<i64>,
    pub rfid_uid: Option<Vec<u8>>,
    pub required_work_hours_secs: i64,
    pub lunch_break_duration_secs: i64,
    pub weekends: Vec<i32>,
    pub remote_days: Vec<i32>,
}

/// Why a stored user cannot be read.
#[derive(Debug, Clone, Copy, PartialEq, Eq, Structural)]
pub enum RowError {
    /// The stored time zone is unknown.
    InvalidTimeZone,
    /// The stored card UID is neither 4, 7 nor 10 bytes.
    InvalidRfidUid,
}

/// The days of the week of a list of ISO numbers (anything but 1-6 is Sunday).
fn weekdays_from_iso(days: &Vec<i32>) -> (r: Vec<Weekday>)
    ensures
        r@ == days@.map_values(|n: i32| Weekday::spec_from_iso(n as int)),
{
    let mut out: Vec<Weekday> = Vec::new();
    let mut i: usize = 0;
    while i < days.len()
        invariant
            i <= days@.len(),
            out@ == days@.take(i as int).map_values(|n: i32| Weekday::spec_from_iso(n as int)),
        decreases days.len() - i,
    {
        out.push(Weekday::from_iso(days[i]));
        proof {
            assert(days@.take(i + 1).map_values(|n: i32| Weekday::spec_from_iso(n as int)) =~= days@.take(
                i as int,
            ).map_values(|n: i32| Weekday::spec_from_iso(n as int)).push(Weekday::spec_from_iso(days@[i as int] as int)));
        }
        i = i + 1;
    }
    assert(days@.take(i as int) =~= days@);
    out
}

/// Reads a stored user.
///
/// # Errors
///
/// `InvalidTimeZone` when the stored zone is unknown, else `InvalidRfidUid` when
/// the stored card UID is not 4, 7 or 10 bytes.
pub fn row_to_core_user(row: UserRow) -> (r: Result<User, RowError>)
    requires
        in_range(row.required_work_hours_secs * NANOS_PER_SEC),
        in_range(row.lunch_break_duration_secs * NANOS_PER_SEC),
    ensures
        !tz_known(row.time_zone@) ==> r == Err::<User, RowError>(RowError::InvalidTimeZone),
        tz_known(row.time_zone@) && (row.rfid_uid matches Some(b) && !(b@.len() == 4 || b@.len() == 7 || b@.len() == 10))
            ==> r == Err::<User, RowError>(RowError::InvalidRfidUid),
        r is Ok <==> tz_known(row.time_zone@) && (row.rfid_uid matches Some(b) ==> (b@.len() == 4 || b@.len() == 7 || b@.len() == 10)),
        r matches Ok(u) ==> {
            &&& u.id == row.id
            &&& u.name == row.name
            &&& u.email == row.email
            &&& u.organization == row.organization
            &&& u.time_zone == row.time_zone
            &&& u.created_at == row.created_at
            &&& u.last_seen == row.last_seen
            &&& (match row.rfid_uid {
                Some(b) => u.rfid_uid matches Some(uid) && uid.view_bytes() == b@,
                None => u.rfid_uid is None,
            })
            &&& u.settings.required_work_hours@ == row.required_work_hours_secs * NANOS_PER_SEC
            &&& u.settings.lunch_break_duration@ == row.lunch_break_duration_secs * NANOS_PER_SEC
            &&& u.settings.weekends@ == row.weekends@.map_values(|n: i32| Weekday::spec_from_iso(n as int))
            &&& u.settings.remote_days@ == row.remote_days@.map_values(|n: i32| Weekday::spec_from_iso(n as int))
        },
{
    if !time_zone_known(row.time_zone.as_str()) {
        return Err(RowError::InvalidTimeZone);
    }
    let rfid_uid = match &row.rfid_uid {
        Some(bytes) => match Uid::from_bytes(bytes.as_slice()) {
            Ok(uid) => Some(uid),
            Err(_) => return Err(RowError::InvalidRfidUid),
        },
        None => None,
    };
    let weekends = weekdays_from_iso(&row.weekends);
    let remote_days = weekdays_from_iso(&row.remote_days);
    let settings = UserSettings {
        required_work_hours: Duration::seconds(row.required_work_hours_secs),
        lunch_break_duration: Duration::seconds(row.lunch_break_duration_secs),
        weekends,
        remote_days,
    };
    Ok(User {
        id: row.id,
        name: row.name,
        email: row.email,
        organization: row.organization,
        time_zone: row.time_zone,
        created_at: row.created_at,
        last_seen: row.last_seen,
        rfid_uid,
        settings,
    })
}

} // verus!
