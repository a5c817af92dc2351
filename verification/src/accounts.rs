//! Account registration: reading the submitted settings, checking the profile,
//! and building the records to store. The database calls stay with the server,
//! which asks these functions what to do between them.

use vstd::prelude::*;
use vstd::string::StringSliceAdditionalSpecFns;
use crate::date::Weekday;
use crate::duration::{Duration, NANOS_PER_SEC, in_range};
use crate::error::SchemaError;
use crate::password::{PasswordError, hash_password, is_hash_of, argon2_accepts};
use crate::profile::{ProfileError, ProfileInput, cleaned, is_email, normalize_profile, text_of};
use crate::schema::{proto_weekday_number, time_zone_from_proto};
use crate::text::trimmed;
use crate::user::{UserSettings, tz_known};

verus! {

/// The span of a duration sent as seconds and nanoseconds, as the calendar
/// library builds it: zero when the nanoseconds are outside `0..1_000_000_000`
/// or the span is out of range.
pub open spec fn span_or_zero(secs: i64, nanos: i32) -> int {
    if 0 <= nanos < 1_000_000_000 && in_range(secs * NANOS_PER_SEC + nanos) {
        secs * NANOS_PER_SEC + nanos
    } else {
        0
    }
}

/// The span of a duration sent as seconds and nanoseconds, or zero when it is none.
pub fn span_from_parts(secs: i64, nanos: i32) -> (r: Duration)
    ensures
        r@ == span_or_zero(secs, nanos),
{
    if nanos < 0 || nanos >= 1_000_000_000 {
        return Duration::zero();
    }
    let total = secs as i128 * 1_000_000_000i128 + nanos as i128;
    match Duration::checked_from_nanos(total) {
        Some(d) => d,
        None => Duration::zero(),
    }
}

/// The week days of protocol numbers: 1-7 are Monday to Sunday, 0 (unset) is an
/// error, and other numbers are passed over.
pub open spec fn proto_days(ns: Seq<i32>) -> Result<Seq<Weekday>, SchemaError>
    decreases ns.len(),
{
    if ns.len() == 0 {
        Ok(Seq::empty())
    } else {
        match proto_days(ns.drop_last()) {
            Err(e) => Err(e),
            Ok(days) => {
                let n = ns.last();
                if n == 0 {
                    Err(SchemaError::InvalidWeekday)
                } else if 1 <= n <= 7 {
                    Ok(days.push(Weekday::spec_from_iso(n as int)))
                } else {
                    Ok(days)
                }
            },
        }
    }
}

/// The week days of a list of protocol numbers (see [`proto_days`]).
///
/// # Errors
///
/// `InvalidWeekday` when a number is 0.
pub fn weekdays_from_proto(ns: &Vec<i32>) -> (r: Result<Vec<Weekday>, SchemaError>)
    ensures
        match proto_days(ns@) {
            Ok(days) => r matches Ok(v) && v@ == days,
            Err(e) => r matches Err(e2) && e2 == e,
        },
{
    let mut out: Vec<Weekday> = Vec::new();
    let mut i: usize = 0;
    while i < ns.len()
        invariant
            i <= ns@.len(),
            proto_days(ns@.take(i as int)) == Ok::<Seq<Weekday>, SchemaError>(out@),
        decreases ns.len() - i,
    {
        let n = ns[i];
        proof {
            assert(ns@.take(i + 1).drop_last() =~= ns@.take(i as int));
        }
        if n == 0 {
            proof {
                lemma_proto_days_err_stays(ns@, (i + 1) as nat);
            }
            return Err(SchemaError::InvalidWeekday);
        }
        if 1 <= n && n <= 7 {
            out.push(Weekday::from_iso(n));
        }
        i = i + 1;
    }
    assert(ns@.take(i as int) =~= ns@);
    Ok(out)
}

/// Once a prefix of the numbers holds an unset day, the whole list is refused.
proof fn lemma_proto_days_err_stays(ns: Seq<i32>, k: nat)
    requires
        k <= ns.len(),
        proto_days(ns.take(k as int)) is Err,
    ensures
        proto_days(ns) == proto_days(ns.take(k as int)),
    decreases ns.len() - k,
{
    if k < ns.len() {
        assert(ns.take(k + 1int).drop_last() =~= ns.take(k as int));
        lemma_proto_days_err_stays(ns, k + 1);
    } else {
        assert(ns.take(k as int) =~= ns);
    }
}

/// The protocol numbers of a list of week days.
pub fn weekdays_to_iso(days: &Vec<Weekday>) -> (r: Vec<i32>)
    ensures
        r@ == days@.map_values(|d: Weekday| proto_weekday_number(d) as i32),
{
    let mut out: Vec<i32> = Vec::new();
    let mut i: usize = 0;
    while i < days.len()
        invariant
            i <= days@.len(),
            out@ == days@.take(i as int).map_values(|d: Weekday| proto_weekday_number(d) as i32),
        decreases days.len() - i,
    {
        out.push(days[i].to_iso());
        proof {
            assert(days@.take(i + 1).map_values(|d: Weekday| proto_weekday_number(d) as i32) =~= days@.take(
                i as int,
            ).map_values(|d: Weekday| proto_weekday_number(d) as i32).push(proto_weekday_number(days@[i as int]) as i32));
        }
        i = i + 1;
    }
    assert(days@.take(i as int) =~= days@);
    out
}

/// The settings of a request: the required time and lunch break as seconds and
/// nanoseconds, and the weekend and remote days as protocol numbers.
///
/// # Errors
///
/// `MissingField` when the required time or the lunch break is missing, else
/// `InvalidWeekday` for an unset day.
pub fn settings_from_parts(
    required_work_hours: Option<(i64, i32)>,
    lunch_break_duration: Option<(i64, i32)>,
    weekends: &Vec<i32>,
    remote_days: &Vec<i32>,
) -> (r: Result<UserSettings, SchemaError>)
    ensures
        required_work_hours is None ==> r == Err::<UserSettings, SchemaError>(SchemaError::MissingField("required_work_hours")),
        required_work_hours is Some && lunch_break_duration is None
            ==> r == Err::<UserSettings, SchemaError>(SchemaError::MissingField("lunch_break_duration")),
        required_work_hours matches Some((rs, rn)) ==> (lunch_break_duration matches Some((ls, ln)) ==> match (
            proto_days(weekends@),
            proto_days(remote_days@),
        ) {
            (Err(e), _) => r == Err::<UserSettings, SchemaError>(e),
            (Ok(_), Err(e)) => r == Err::<UserSettings, SchemaError>(e),
            (Ok(w), Ok(rd)) => r matches Ok(s) && {
                &&& s.required_work_hours@ == span_or_zero(rs, rn)
                &&& s.lunch_break_duration@ == span_or_zero(ls, ln)
                &&& s.weekends@ == w
                &&& s.remote_days@ == rd
            },
        }),
{
    let required = match required_work_hours {
        Some((secs, nanos)) => span_from_parts(secs, nanos),
        None => return Err(SchemaError::MissingField("required_work_hours")),
    };
    let lunch = match lunch_break_duration {
        Some((secs, nanos)) => span_from_parts(secs, nanos),
        None => return Err(SchemaError::MissingField("lunch_break_duration")),
    };
    let weekends = match weekdays_from_proto(weekends) {
        Ok(days) => days,
        Err(e) => return Err(e),
    };
    let remote_days = match weekdays_from_proto(remote_days) {
        Ok(days) => days,
        Err(e) => return Err(e),
    };
    Ok(UserSettings { required_work_hours: required, lunch_break_duration: lunch, weekends, remote_days })
}

/// Why a registration is refused.
#[derive(Debug, Clone, PartialEq, Eq)]
pub enum RegistrationError {
    /// The name or email is blank, or the email is malformed.
    Profile(ProfileError),
    /// No time zone was sent.
    MissingTimeZone,
    /// The time zone or the settings were refused.
    Schema(SchemaError),
    /// Another account has the email.
    EmailTaken,
    /// The password is empty or could not be hashed.
    Password(PasswordError),
}

/// A registration that passed its checks, before the email is looked up.
#[derive(Debug, Clone)]
pub struct NewUser {
    pub profile: ProfileInput,
    pub time_zone: String,
    pub settings: UserSettings,
}

/// Whether a registration's name and email pass: both non-blank once trimmed, and
/// the email well formed.
pub open spec fn profile_accepted(name: Seq<char>, email: Seq<char>) -> bool {
    trimmed(name).len() > 0 && trimmed(email).len() > 0 && is_email(trimmed(email))
}

/// Checks a registration: the profile, then the time zone, then the settings
/// (the defaults when none were sent).
///
/// # Errors
///
/// `Profile` for a refused profile, `MissingTimeZone` without a zone, `Schema`
/// for an unknown zone or refused settings.
pub fn prepare_registration(
    name: String,
    email: String,
    organization: Option<String>,
    time_zone: Option<String>,
    settings: Option<Result<UserSettings, SchemaError>>,
) -> (r: Result<NewUser, RegistrationError>)
    ensures
        (trimmed(name@).len() == 0 || trimmed(email@).len() == 0) ==> r == Err::<NewUser, RegistrationError>(
            RegistrationError::Profile(ProfileError::MissingIdentity),
        ),
        (trimmed(name@).len() > 0 && trimmed(email@).len() > 0 && !is_email(trimmed(email@))) ==> r == Err::<
            NewUser,
            RegistrationError,
        >(RegistrationError::Profile(ProfileError::InvalidEmail)),
        profile_accepted(name@, email@) && time_zone is None ==> r == Err::<NewUser, RegistrationError>(
            RegistrationError::MissingTimeZone,
        ),
        time_zone matches Some(tz) ==> (profile_accepted(name@, email@) && !tz_known(tz@) ==> r == Err::<
            NewUser,
            RegistrationError,
        >(RegistrationError::Schema(SchemaError::InvalidTz(tz)))),
        settings matches Some(Err(e)) ==> (profile_accepted(name@, email@) && (time_zone matches Some(tz)
            && tz_known(tz@)) ==> r == Err::<NewUser, RegistrationError>(RegistrationError::Schema(e))),
        r is Ok <==> {
            &&& profile_accepted(name@, email@)
            &&& time_zone matches Some(tz) && tz_known(tz@)
            &&& !(settings matches Some(Err(_)))
        },
        r matches Ok(u) ==> {
            &&& u.profile.name@ == trimmed(name@)
            &&& u.profile.email@ == trimmed(email@)
            &&& text_of(u.profile.organization) == cleaned(text_of(organization))
            &&& time_zone == Some(u.time_zone)
            &&& (settings matches Some(Ok(s)) ==> u.settings@ == s@)
            &&& (settings is None ==> u.settings@ == UserSettings::spec_default())
        },
{
    let profile = match normalize_profile(name, email, organization) {
        Ok(p) => p,
        Err(e) => return Err(RegistrationError::Profile(e)),
    };
    let time_zone = match time_zone {
        Some(tz) => match time_zone_from_proto(tz) {
            Ok(tz) => tz,
            Err(e) => return Err(RegistrationError::Schema(e)),
        },
        None => return Err(RegistrationError::MissingTimeZone),
    };
    let settings = match settings {
        Some(Ok(s)) => s,
        Some(Err(e)) => return Err(RegistrationError::Schema(e)),
        None => UserSettings::default(),
    };
    Ok(NewUser { profile, time_zone, settings })
}

/// The rows to store for a new account.
#[derive(Debug, Clone)]
pub struct NewUserRecord {
    pub id: u128,
    pub name: String,
    pub email: String,
    pub organization: Option<String>,
    pub time_zone: String,
    /// When the account was made and last seen, in seconds since the Unix epoch.
    pub created_at: i64,
    pub required_work_hours_secs: i64,
    pub lunch_break_duration_secs: i64,
    pub weekends: Vec<i32>,
    pub remote_days: Vec<i32>,
    pub password_hash: String,
}

/// Whole seconds of a span in nanoseconds, rounded toward zero.
pub open spec fn whole_seconds(n: int) -> int {
    if n >= 0 { n / (NANOS_PER_SEC as int) } else { -((-n) / (NANOS_PER_SEC as int)) }
}

/// Completes a registration once the email has been looked up: refused when the
/// email is taken, else the password is hashed and the rows are built with the
/// new id and the time of registration.
///
/// # Errors
///
/// `EmailTaken` when another account has the email, `Password` when the password
/// is empty, or longer than the hasher takes (`0xFFFF_FFFF` bytes).
pub fn finish_registration(new_user: NewUser, email_taken: bool, password: &str, user_id: u128, now: i64) -> (r:
    Result<NewUserRecord, RegistrationError>)
    ensures
        email_taken <==> r == Err::<NewUserRecord, RegistrationError>(RegistrationError::EmailTaken),
        (!email_taken && password@.len() == 0) <==> r == Err::<NewUserRecord, RegistrationError>(
            RegistrationError::Password(PasswordError::Empty),
        ),
        !email_taken && password@.len() > 0 && password.spec_bytes().len() <= 0xFFFF_FFFF ==> r is Ok,
        !email_taken && password@.len() > 0 && password.spec_bytes().len() > 0xFFFF_FFFF ==> r == Err::<
            NewUserRecord,
            RegistrationError,
        >(RegistrationError::Password(PasswordError::Hashing)),
        r matches Err(e) ==> e == RegistrationError::EmailTaken || e == RegistrationError::Password(PasswordError::Empty)
            || e == RegistrationError::Password(PasswordError::Hashing),
        r matches Ok(rec) ==> {
            &&& rec.id == user_id
            &&& rec.name == new_user.profile.name
            &&& rec.email == new_user.profile.email
            &&& rec.organization == new_user.profile.organization
            &&& rec.time_zone == new_user.time_zone
            &&& rec.created_at == now
            &&& rec.required_work_hours_secs == whole_seconds(new_user.settings.required_work_hours@)
            &&& rec.lunch_break_duration_secs == whole_seconds(new_user.settings.lunch_break_duration@)
            &&& rec.weekends@ == new_user.settings.weekends@.map_values(|d: Weekday| proto_weekday_number(d) as i32)
            &&& rec.remote_days@ == new_user.settings.remote_days@.map_values(|d: Weekday| proto_weekday_number(d) as i32)
            &&& is_hash_of(password.spec_bytes(), rec.password_hash@)
            &&& argon2_accepts(password.spec_bytes(), rec.password_hash@)
        },
{
    if email_taken {
        return Err(RegistrationError::EmailTaken);
    }
    let password_hash = match hash_password(password) {
        Ok(h) => h,
        Err(e) => return Err(RegistrationError::Password(e)),
    };
    let weekends = weekdays_to_iso(&new_user.settings.weekends);
    let remote_days = weekdays_to_iso(&new_user.settings.remote_days);
    let required = new_user.settings.required_work_hours.num_seconds();
    let lunch = new_user.settings.lunch_break_duration.num_seconds();
    Ok(NewUserRecord {
        id: user_id,
        name: new_user.profile.name,
        email: new_user.profile.email,
        organization: new_user.profile.organization,
        time_zone: new_user.time_zone,
        created_at: now,
        required_work_hours_secs: required,
        lunch_break_duration_secs: lunch,
        weekends,
        remote_days,
        password_hash,
    })
}

} // verus!
