//! Alarm configuration for the DS3231 real-time clock.
//!
//! Alarm 1 matches down to the second, alarm 2 down to the minute (it fires
//! at 00 seconds). A configuration names what has to match; the register
//! model holds the four (alarm 1) or three (alarm 2) alarm registers with
//! their mask bits, BCD digits, 12/24-hour flag and day/date select bit.
//! `from_config` encodes a configuration into registers and `to_config`
//! decodes registers back; decoding what was encoded gives the
//! configuration back (see [`lemma_alarm1_round_trip`] and
//! [`lemma_alarm2_round_trip`]).

use vstd::prelude::*;
use vstd::std_specs::convert::FromSpecImpl;
use crate::bits::field;
use crate::registers::{
    AlarmDayDate, AlarmHours, AlarmMinutes, AlarmSeconds, DayDateSelect, TimeRepresentation,
};

verus! {

/// Error of a date/time conversion of the DS3231 (a value out of range).
#[derive(Debug, Clone, Copy, PartialEq, Eq, Structural)]
pub enum DS3231DateTimeError {
    /// A date or time component is out of range
    InvalidDateTime,
}

/// Error type for alarm configuration operations.
#[derive(Debug)]
pub enum AlarmError {
    /// Invalid time component value
    InvalidTime(&'static str),
    /// Invalid day of week (must be 1-7)
    InvalidDayOfWeek,
    /// Invalid date of month (must be 1-31)
    InvalidDateOfMonth,
    /// Date/time conversion error
    DateTime(DS3231DateTimeError),
}

impl From<DS3231DateTimeError> for AlarmError {
    fn from(e: DS3231DateTimeError) -> (r: AlarmError) {
        AlarmError::DateTime(e)
    }
}

impl FromSpecImpl<DS3231DateTimeError> for AlarmError {
    open spec fn obeys_from_spec() -> bool {
        true
    }

    open spec fn from_spec(e: DS3231DateTimeError) -> AlarmError {
        AlarmError::DateTime(e)
    }
}

/// Alarm 1 specific configurations.
///
/// Alarm 1 supports seconds-level precision and can match against various time components.
#[derive(Debug, Clone, PartialEq, Eq, Structural)]
pub enum Alarm1Config {
    /// Trigger every second (all mask bits set)
    EverySecond,
    /// Trigger when seconds match (A1M1=0, others=1)
    AtSeconds {
        /// Seconds value (0-59)
        seconds: u8,
    },
    /// Trigger when minutes and seconds match (A1M1=0, A1M2=0, others=1)
    AtMinutesSeconds {
        /// Minutes value (0-59)
        minutes: u8,
        /// Seconds value (0-59)
        seconds: u8,
    },
    /// Trigger when hours, minutes and seconds match (daily alarm)
    AtTime {
        /// Hours value (0-23 for 24-hour, 1-12 for 12-hour)
        hours: u8,
        /// Minutes value (0-59)
        minutes: u8,
        /// Seconds value (0-59)
        seconds: u8,
        /// PM flag for 12-hour mode (None for 24-hour mode)
        is_pm: Option<bool>,
    },
    /// Trigger at a specific time on a specific date of the month
    AtTimeOnDate {
        /// Hours value (0-23 for 24-hour, 1-12 for 12-hour)
        hours: u8,
        /// Minutes value (0-59)
        minutes: u8,
        /// Seconds value (0-59)
        seconds: u8,
        /// Date of month (1-31)
        date: u8,
        /// PM flag for 12-hour mode (None for 24-hour mode)
        is_pm: Option<bool>,
    },
    /// Trigger at a specific time on a specific day of the week
    AtTimeOnDay {
        /// Hours value (0-23 for 24-hour, 1-12 for 12-hour)
        hours: u8,
        /// Minutes value (0-59)
        minutes: u8,
        /// Seconds value (0-59)
        seconds: u8,
        /// Day of week (1-7, where 1 = Sunday)
        day: u8,
        /// PM flag for 12-hour mode (None for 24-hour mode)
        is_pm: Option<bool>,
    },
}

/// Alarm 2 specific configurations.
///
/// Alarm 2 has no seconds register and always triggers at 00 seconds of the matching minute.
#[derive(Debug, Clone, PartialEq, Eq, Structural)]
pub enum Alarm2Config {
    /// Trigger every minute at 00 seconds (all mask bits set)
    EveryMinute,
    /// Trigger when minutes match at 00 seconds
    AtMinutes {
        /// Minutes value (0-59)
        minutes: u8,
    },
    /// Trigger when hours and minutes match at 00 seconds (daily alarm)
    AtTime {
        /// Hours value (0-23 for 24-hour, 1-12 for 12-hour)
        hours: u8,
        /// Minutes value (0-59)
        minutes: u8,
        /// PM flag for 12-hour mode (None for 24-hour mode)
        is_pm: Option<bool>,
    },
    /// Trigger at a specific time on a specific date of the month
    AtTimeOnDate {
        /// Hours value (0-23 for 24-hour, 1-12 for 12-hour)
        hours: u8,
        /// Minutes value (0-59)
        minutes: u8,
        /// Date of month (1-31)
        date: u8,
        /// PM flag for 12-hour mode (None for 24-hour mode)
        is_pm: Option<bool>,
    },
    /// Trigger at a specific time on a specific day of the week
    AtTimeOnDay {
        /// Hours value (0-23 for 24-hour, 1-12 for 12-hour)
        hours: u8,
        /// Minutes value (0-59)
        minutes: u8,
        /// Day of week (1-7, where 1 = Sunday)
        day: u8,
        /// PM flag for 12-hour mode (None for 24-hour mode)
        is_pm: Option<bool>,
    },
}

// ---------------------------------------------------------------------------
// Validation rules
// ---------------------------------------------------------------------------

/// The hour rule: 0-23 in 24-hour mode (`is_pm` is `None`), 1-12 in 12-hour mode.
pub open spec fn hours_check(hours: u8, is_pm: Option<bool>) -> Result<(), AlarmError> {
    match is_pm {
        None => if hours > 23 {
            Err(AlarmError::InvalidTime("hours must be 0-23 in 24-hour mode"))
        } else {
            Ok(())
        },
        Some(_) => if hours == 0 || hours > 12 {
            Err(AlarmError::InvalidTime("hours must be 1-12 in 12-hour mode"))
        } else {
            Ok(())
        },
    }
}

/// Alarm 1 time rule: minutes first, then seconds, then hours.
pub open spec fn time_check1(hours: u8, minutes: u8, seconds: u8, is_pm: Option<bool>) -> Result<(), AlarmError> {
    if minutes > 59 {
        Err(AlarmError::InvalidTime("minutes must be 0-59"))
    } else if seconds > 59 {
        Err(AlarmError::InvalidTime("seconds must be 0-59"))
    } else {
        hours_check(hours, is_pm)
    }
}

/// Alarm 2 time rule: minutes first, then hours.
pub open spec fn time_check2(hours: u8, minutes: u8, is_pm: Option<bool>) -> Result<(), AlarmError> {
    if minutes > 59 {
        Err(AlarmError::InvalidTime("minutes must be 0-59"))
    } else {
        hours_check(hours, is_pm)
    }
}

/// The date rule: 1-31.
pub open spec fn date_check(date: u8) -> Result<(), AlarmError> {
    if date == 0 || date > 31 { Err(AlarmError::InvalidDateOfMonth) } else { Ok(()) }
}

/// The day-of-week rule: 1-7.
pub open spec fn day_check(day: u8) -> Result<(), AlarmError> {
    if day == 0 || day > 7 { Err(AlarmError::InvalidDayOfWeek) } else { Ok(()) }
}

/// The time rule first, then the day or date rule.
pub open spec fn then_check(first: Result<(), AlarmError>, second: Result<(), AlarmError>) -> Result<(), AlarmError> {
    match first {
        Err(e) => Err(e),
        Ok(()) => second,
    }
}

impl Alarm1Config {
    /// What `validate` answers for this configuration.
    pub open spec fn validation(self) -> Result<(), AlarmError> {
        match self {
            Alarm1Config::EverySecond => Ok(()),
            Alarm1Config::AtSeconds { seconds } =>
                if seconds > 59 { Err(AlarmError::InvalidTime("seconds must be 0-59")) } else { Ok(()) },
            Alarm1Config::AtMinutesSeconds { minutes, seconds } =>
                if minutes > 59 {
                    Err(AlarmError::InvalidTime("minutes must be 0-59"))
                } else if seconds > 59 {
                    Err(AlarmError::InvalidTime("seconds must be 0-59"))
                } else {
                    Ok(())
                },
            Alarm1Config::AtTime { hours, minutes, seconds, is_pm } =>
                time_check1(hours, minutes, seconds, is_pm),
            Alarm1Config::AtTimeOnDate { hours, minutes, seconds, date, is_pm } =>
                then_check(time_check1(hours, minutes, seconds, is_pm), date_check(date)),
            Alarm1Config::AtTimeOnDay { hours, minutes, seconds, day, is_pm } =>
                then_check(time_check1(hours, minutes, seconds, is_pm), day_check(day)),
        }
    }

    /// Validates the alarm configuration and returns any errors.
    ///
    /// # Errors
    ///
    /// Returns an error if any time component is out of valid range.
    pub fn validate(&self) -> (r: Result<(), AlarmError>)
        ensures
            r == self.validation(),
    {
        match self {
            Alarm1Config::EverySecond => Ok(()),
            Alarm1Config::AtSeconds { seconds } => {
                if *seconds > 59 {
                    Err(AlarmError::InvalidTime("seconds must be 0-59"))
                } else {
                    Ok(())
                }
            },
            Alarm1Config::AtMinutesSeconds { minutes, seconds } => {
                if *minutes > 59 {
                    Err(AlarmError::InvalidTime("minutes must be 0-59"))
                } else if *seconds > 59 {
                    Err(AlarmError::InvalidTime("seconds must be 0-59"))
                } else {
                    Ok(())
                }
            },
            Alarm1Config::AtTime { hours, minutes, seconds, is_pm } =>
                Self::validate_time(*hours, *minutes, *seconds, *is_pm),
            Alarm1Config::AtTimeOnDate { hours, minutes, seconds, date, is_pm } => {
                match Self::validate_time(*hours, *minutes, *seconds, *is_pm) {
                    Err(e) => Err(e),
                    Ok(()) => {
                        if *date == 0 || *date > 31 {
                            Err(AlarmError::InvalidDateOfMonth)
                        } else {
                            Ok(())
                        }
                    },
                }
            },
            Alarm1Config::AtTimeOnDay { hours, minutes, seconds, day, is_pm } => {
                match Self::validate_time(*hours, *minutes, *seconds, *is_pm) {
                    Err(e) => Err(e),
                    Ok(()) => {
                        if *day == 0 || *day > 7 {
                            Err(AlarmError::InvalidDayOfWeek)
                        } else {
                            Ok(())
                        }
                    },
                }
            },
        }
    }

    /// Checks minutes, then seconds, then the hour against the 12/24-hour mode.
    pub fn validate_time(hours: u8, minutes: u8, seconds: u8, is_pm: Option<bool>) -> (r: Result<(), AlarmError>)
        ensures
            r == time_check1(hours, minutes, seconds, is_pm),
    {
        if minutes > 59 {
            return Err(AlarmError::InvalidTime("minutes must be 0-59"));
        }
        if seconds > 59 {
            return Err(AlarmError::InvalidTime("seconds must be 0-59"));
        }
        match is_pm {
            None => {
                if hours > 23 {
                    Err(AlarmError::InvalidTime("hours must be 0-23 in 24-hour mode"))
                } else {
                    Ok(())
                }
            },
            Some(_) => {
                if hours == 0 || hours > 12 {
                    Err(AlarmError::InvalidTime("hours must be 1-12 in 12-hour mode"))
                } else {
                    Ok(())
                }
            },
        }
    }
}

impl Alarm2Config {
    /// What `validate` answers for this configuration.
    pub open spec fn validation(self) -> Result<(), AlarmError> {
        match self {
            Alarm2Config::EveryMinute => Ok(()),
            Alarm2Config::AtMinutes { minutes } =>
                if minutes > 59 { Err(AlarmError::InvalidTime("minutes must be 0-59")) } else { Ok(()) },
            Alarm2Config::AtTime { hours, minutes, is_pm } => time_check2(hours, minutes, is_pm),
            Alarm2Config::AtTimeOnDate { hours, minutes, date, is_pm } =>
                then_check(time_check2(hours, minutes, is_pm), date_check(date)),
            Alarm2Config::AtTimeOnDay { hours, minutes, day, is_pm } =>
                then_check(time_check2(hours, minutes, is_pm), day_check(day)),
        }
    }

    /// Validates the alarm configuration and returns any errors.
    ///
    /// # Errors
    ///
    /// Returns an error if any time component is out of valid range.
    pub fn validate(&self) -> (r: Result<(), AlarmError>)
        ensures
            r == self.validation(),
    {
        match self {
            Alarm2Config::EveryMinute => Ok(()),
            Alarm2Config::AtMinutes { minutes } => {
                if *minutes > 59 {
                    Err(AlarmError::InvalidTime("minutes must be 0-59"))
                } else {
                    Ok(())
                }
            },
            Alarm2Config::AtTime { hours, minutes, is_pm } =>
                Self::validate_time(*hours, *minutes, *is_pm),
            Alarm2Config::AtTimeOnDate { hours, minutes, date, is_pm } => {
                match Self::validate_time(*hours, *minutes, *is_pm) {
                    Err(e) => Err(e),
                    Ok(()) => {
                        if *date == 0 || *date > 31 {
                            Err(AlarmError::InvalidDateOfMonth)
                        } else {
                            Ok(())
                        }
                    },
                }
            },
            Alarm2Config::AtTimeOnDay { hours, minutes, day, is_pm } => {
                match Self::validate_time(*hours, *minutes, *is_pm) {
                    Err(e) => Err(e),
                    Ok(()) => {
                        if *day == 0 || *day > 7 {
                            Err(AlarmError::InvalidDayOfWeek)
                        } else {
                            Ok(())
                        }
                    },
                }
            },
        }
    }

    /// Checks minutes, then the hour against the 12/24-hour mode.
    pub fn validate_time(hours: u8, minutes: u8, is_pm: Option<bool>) -> (r: Result<(), AlarmError>)
        ensures
            r == time_check2(hours, minutes, is_pm),
    {
        if minutes > 59 {
            return Err(AlarmError::InvalidTime("minutes must be 0-59"));
        }
        match is_pm {
            None => {
                if hours > 23 {
                    Err(AlarmError::InvalidTime("hours must be 0-23 in 24-hour mode"))
                } else {
                    Ok(())
                }
            },
            Some(_) => {
                if hours == 0 || hours > 12 {
                    Err(AlarmError::InvalidTime("hours must be 1-12 in 12-hour mode"))
                } else {
                    Ok(())
                }
            },
        }
    }
}

// ---------------------------------------------------------------------------
// BCD encoding
// ---------------------------------------------------------------------------

/// Packs a value below 100 into a BCD byte: tens in the high nibble, ones in the low one.
pub open spec fn bcd(v: int) -> int {
    (v / 10) * 16 + v % 10
}

/// The hour shown on a 12-hour clock for an hour of the day (0 is 12 AM, 13 is 1 PM).
pub open spec fn twelve_hour(hour: int) -> int {
    if hour == 0 { 12 } else if hour <= 12 { hour } else { hour - 12 }
}

/// The alarm hours byte (mask bit clear) for `hour`: in 24-hour mode bit 5 holds
/// the twenty hours, bit 4 the ten hours; in 12-hour mode bit 6 is set, bit 5 is
/// the PM flag and bits 4-0 hold the BCD hour.
pub open spec fn hours_byte(hour: int, is_pm: Option<bool>) -> int {
    match is_pm {
        None => (if hour >= 20 { 32int } else { 0int }) + ((hour / 10) % 2) * 16 + hour % 10,
        Some(pm) => 64 + (if pm { 32int } else { 0int }) + bcd(twelve_hour(hour)),
    }
}

/// Splits `value` into its BCD ones and tens digits, refusing values above `max`.
pub fn make_bcd(value: u32, max: u32) -> (r: Result<(u8, u8), DS3231DateTimeError>)
    requires
        max <= 99,
    ensures
        value > max <==> r is Err,
        r matches Err(e) ==> e == DS3231DateTimeError::InvalidDateTime,
        r matches Ok((ones, tens)) ==> ones == value % 10 && tens == value / 10,
{
    if value > max {
        return Err(DS3231DateTimeError::InvalidDateTime);
    }
    Ok(((value % 10) as u8, (value / 10) as u8))
}

/// The hours register for an hour of the day (0-23) in the given representation.
///
/// In 12-hour mode the hour is shown as 12 AM for 0, 1-11 AM, 12 PM, and 1-11 PM
/// for 13-23, with the PM flag set accordingly.
pub fn convert_hours(hours: u32, rep: TimeRepresentation) -> (r: Result<AlarmHours, DS3231DateTimeError>)
    ensures
        hours > 23 <==> r is Err,
        r matches Err(e) ==> e == DS3231DateTimeError::InvalidDateTime,
        r matches Ok(h) ==> h.0 == (match rep {
            TimeRepresentation::TwentyFourHour => hours_byte(hours as int, None),
            TimeRepresentation::TwelveHour => hours_byte(hours as int, Some(hours >= 12)),
        }),
{
    let mut h = AlarmHours(0);
    h.set_time_representation(rep);
    match rep {
        TimeRepresentation::TwentyFourHour => {
            let (ones, tens) = match make_bcd(hours, 23) {
                Ok(d) => d,
                Err(e) => return Err(e),
            };
            h.set_hours(ones);
            h.set_ten_hours(tens % 2);
            h.set_pm_or_twenty_hours(tens / 2);
            Ok(h)
        },
        TimeRepresentation::TwelveHour => {
            if hours > 23 {
                return Err(DS3231DateTimeError::InvalidDateTime);
            }
            let shown: u32 = if hours == 0 { 12 } else if hours <= 12 { hours } else { hours - 12 };
            let (ones, tens) = match make_bcd(shown, 12) {
                Ok(d) => d,
                Err(e) => return Err(e),
            };
            h.set_hours(ones);
            h.set_ten_hours(tens);
            h.set_pm_or_twenty_hours(if hours >= 12 { 1 } else { 0 });
            Ok(h)
        },
    }
}

/// The digits read back from a 24-hour hours byte.
proof fn lemma_hours_digits(b: u8, twenty: int, tens: int, ones: int, hour: int)
    requires
        0 <= hour <= 23,
        b == hours_byte(hour, None),
        twenty == field(b, 32, 2),
        tens == field(b, 16, 2),
        ones == field(b, 1, 16),
    ensures
        ones < 10, tens < 2, twenty < 2,
        ones + 16 * tens + 32 * twenty == hours_byte(hour, None),
{
}

/// The digits read back from a 12-hour hours byte.
proof fn lemma_twelve_hour_digits(b: u8, tens: int, ones: int, hour: int)
    requires
        0 <= hour <= 23,
        b == hours_byte(hour, Some(hour >= 12)),
        tens == field(b, 16, 2),
        ones == field(b, 1, 16),
    ensures
        ones < 10, tens < 2,
        ones + 16 * tens == bcd(twelve_hour(hour)),
{
}

/// Creates the minutes and hours registers shared by both alarms (mask bits clear).
///
/// In 12-hour mode (`is_pm` is `Some`) the PM flag is taken from `is_pm`.
pub fn create_alarm_time_components(hour: u8, minute: u8, is_pm: Option<bool>) -> (r: Result<(AlarmMinutes, AlarmHours), AlarmError>)
    ensures
        (minute > 59 || hour > 23) <==> r is Err,
        r matches Err(e) ==> e == AlarmError::DateTime(DS3231DateTimeError::InvalidDateTime),
        r matches Ok((m, h)) ==> m.0 == bcd(minute as int) && h.0 == match is_pm {
            None => hours_byte(hour as int, None),
            Some(pm) => 64 + (if pm { 32int } else { 0int }) + bcd(twelve_hour(hour as int)),
        },
{
    let (min_ones, min_tens) = match make_bcd(minute as u32, 59) {
        Ok(d) => d,
        Err(e) => return Err(AlarmError::DateTime(e)),
    };
    let mut minutes = AlarmMinutes(0);
    minutes.set_minutes(min_ones);
    assert(minutes.0 == min_ones);
    minutes.set_ten_minutes(min_tens);
    assert(minutes.0 == bcd(minute as int));

    let mut hours = AlarmHours(0);
    match is_pm {
        None => {
            hours.set_time_representation(TimeRepresentation::TwentyFourHour);
            let hour_reg = match convert_hours(hour as u32, TimeRepresentation::TwentyFourHour) {
                Ok(h) => h,
                Err(e) => return Err(AlarmError::DateTime(e)),
            };
            let ones = hour_reg.hours();
            let tens = hour_reg.ten_hours();
            let twenty = hour_reg.pm_or_twenty_hours();
            proof { lemma_hours_digits(hour_reg.0, twenty as int, tens as int, ones as int, hour as int); }
            hours.set_hours(ones);
            assert(hours.0 == ones);
            hours.set_ten_hours(tens);
            assert(hours.0 == ones + 16 * tens);
            hours.set_pm_or_twenty_hours(twenty);
            assert(hours.0 == ones + 16 * tens + 32 * twenty);
        },
        Some(pm) => {
            hours.set_time_representation(TimeRepresentation::TwelveHour);
            let hour_reg = match convert_hours(hour as u32, TimeRepresentation::TwelveHour) {
                Ok(h) => h,
                Err(e) => return Err(AlarmError::DateTime(e)),
            };
            let ones = hour_reg.hours();
            let tens = hour_reg.ten_hours();
            proof { lemma_twelve_hour_digits(hour_reg.0, tens as int, ones as int, hour as int); }
            assert(hours.0 == 64);
            hours.set_hours(ones);
            assert(hours.0 == 64 + ones);
            hours.set_ten_hours(tens);
            assert(hours.0 == 64 + ones + 16 * tens);
            hours.set_pm_or_twenty_hours(if pm { 1 } else { 0 });
        },
    }
    Ok((minutes, hours))
}

/// Creates the day/date register shared by both alarms (mask bit clear): the raw
/// day of week in day mode, the BCD date in date mode.
pub fn create_alarm_day_date_component(day_or_date: u8, is_day: bool) -> (r: Result<AlarmDayDate, AlarmError>)
    ensures
        (!is_day && day_or_date > 31) <==> r is Err,
        r matches Err(e) ==> e == AlarmError::DateTime(DS3231DateTimeError::InvalidDateTime),
        r matches Ok(d) ==> d.0 == if is_day {
            64 + day_or_date % 16
        } else {
            bcd(day_or_date as int)
        },
{
    let mut day_date = AlarmDayDate(0);
    if is_day {
        day_date.set_day_date_select(DayDateSelect::Day);
        day_date.set_day_or_date(day_or_date);
    } else {
        day_date.set_day_date_select(DayDateSelect::Date);
        let (date_ones, date_tens) = match make_bcd(day_or_date as u32, 31) {
            Ok(d) => d,
            Err(e) => return Err(AlarmError::DateTime(e)),
        };
        day_date.set_day_or_date(date_ones);
        day_date.set_ten_date(date_tens);
    }
    Ok(day_date)
}

// ---------------------------------------------------------------------------
// Decoding rules
// ---------------------------------------------------------------------------

/// Whether the mask bit (bit 7) of an alarm register is set.
pub open spec fn masked(b: u8) -> bool {
    field(b, 128, 2) == 1
}

/// The BCD seconds of an alarm seconds byte.
pub open spec fn decode_seconds_byte(b: u8) -> Result<u8, AlarmError> {
    let ones = field(b, 1, 16);
    let tens = field(b, 16, 8);
    if ones > 9 || tens > 5 {
        Err(AlarmError::InvalidTime("Invalid BCD seconds value"))
    } else {
        Ok((tens * 10 + ones) as u8)
    }
}

/// The BCD minutes of an alarm minutes byte.
pub open spec fn decode_minutes_byte(b: u8) -> Result<u8, AlarmError> {
    let ones = field(b, 1, 16);
    let tens = field(b, 16, 8);
    if ones > 9 || tens > 5 {
        Err(AlarmError::InvalidTime("Invalid BCD minutes value"))
    } else {
        Ok((tens * 10 + ones) as u8)
    }
}

/// The hour and the 12-hour PM flag (`None` in 24-hour mode) of an alarm hours byte.
pub open spec fn decode_hours_byte(b: u8) -> Result<(u8, Option<bool>), AlarmError> {
    let ones = field(b, 1, 16);
    let tens = field(b, 16, 2);
    if ones > 9 || tens > 2 {
        Err(AlarmError::InvalidTime("Invalid BCD hours value"))
    } else if field(b, 64, 2) == 0 {
        let hours = field(b, 32, 2) * 20 + tens * 10 + ones;
        if hours > 23 {
            Err(AlarmError::InvalidTime("Invalid 24-hour value"))
        } else {
            Ok((hours as u8, None))
        }
    } else {
        let hours = tens * 10 + ones;
        if hours == 0 || hours > 12 {
            Err(AlarmError::InvalidTime("Invalid 12-hour value"))
        } else {
            Ok((hours as u8, Some(field(b, 32, 2) != 0)))
        }
    }
}

/// The BCD date of month of an alarm day/date byte.
pub open spec fn decode_date_byte(b: u8) -> Result<u8, AlarmError> {
    let ones = field(b, 1, 16);
    let tens = field(b, 16, 4);
    if ones > 9 || tens > 3 {
        Err(AlarmError::InvalidTime("Invalid BCD date value"))
    } else if tens * 10 + ones == 0 || tens * 10 + ones > 31 {
        Err(AlarmError::InvalidTime("Invalid date value"))
    } else {
        Ok((tens * 10 + ones) as u8)
    }
}

/// The error of an alarm register set whose mask bits name no configuration.
pub open spec fn mask_error() -> AlarmError {
    AlarmError::InvalidTime("Invalid alarm mask bit combination")
}

/// The configuration that the alarm 1 registers (seconds, minutes, hours, day/date) hold.
pub open spec fn alarm1_decoded(regs: (u8, u8, u8, u8)) -> Result<Alarm1Config, AlarmError> {
    let (s, m, h, d) = regs;
    if masked(s) && masked(m) && masked(h) && masked(d) {
        Ok(Alarm1Config::EverySecond)
    } else if !masked(s) && masked(m) && masked(h) && masked(d) {
        match decode_seconds_byte(s) {
            Err(e) => Err(e),
            Ok(seconds) => Ok(Alarm1Config::AtSeconds { seconds }),
        }
    } else if !masked(s) && !masked(m) && masked(h) && masked(d) {
        match decode_seconds_byte(s) {
            Err(e) => Err(e),
            Ok(seconds) => match decode_minutes_byte(m) {
                Err(e) => Err(e),
                Ok(minutes) => Ok(Alarm1Config::AtMinutesSeconds { minutes, seconds }),
            },
        }
    } else if !masked(s) && !masked(m) && !masked(h) {
        match decode_seconds_byte(s) {
            Err(e) => Err(e),
            Ok(seconds) => match decode_minutes_byte(m) {
                Err(e) => Err(e),
                Ok(minutes) => match decode_hours_byte(h) {
                    Err(e) => Err(e),
                    Ok((hours, is_pm)) => if masked(d) {
                        Ok(Alarm1Config::AtTime { hours, minutes, seconds, is_pm })
                    } else if field(d, 64, 2) == 1 {
                        match day_check(field(d, 1, 16) as u8) {
                            Err(e) => Err(e),
                            Ok(()) => Ok(Alarm1Config::AtTimeOnDay { hours, minutes, seconds, day: field(d, 1, 16) as u8, is_pm }),
                        }
                    } else {
                        match decode_date_byte(d) {
                            Err(e) => Err(e),
                            Ok(date) => Ok(Alarm1Config::AtTimeOnDate { hours, minutes, seconds, date, is_pm }),
                        }
                    },
                },
            },
        }
    } else {
        Err(mask_error())
    }
}

/// The configuration that the alarm 2 registers (minutes, hours, day/date) hold.
pub open spec fn alarm2_decoded(regs: (u8, u8, u8)) -> Result<Alarm2Config, AlarmError> {
    let (m, h, d) = regs;
    if masked(m) && masked(h) && masked(d) {
        Ok(Alarm2Config::EveryMinute)
    } else if !masked(m) && masked(h) && masked(d) {
        match decode_minutes_byte(m) {
            Err(e) => Err(e),
            Ok(minutes) => Ok(Alarm2Config::AtMinutes { minutes }),
        }
    } else if !masked(m) && !masked(h) {
        match decode_minutes_byte(m) {
            Err(e) => Err(e),
            Ok(minutes) => match decode_hours_byte(h) {
                Err(e) => Err(e),
                Ok((hours, is_pm)) => if masked(d) {
                    Ok(Alarm2Config::AtTime { hours, minutes, is_pm })
                } else if field(d, 64, 2) == 1 {
                    match day_check(field(d, 1, 16) as u8) {
                        Err(e) => Err(e),
                        Ok(()) => Ok(Alarm2Config::AtTimeOnDay { hours, minutes, day: field(d, 1, 16) as u8, is_pm }),
                    }
                } else {
                    match decode_date_byte(d) {
                        Err(e) => Err(e),
                        Ok(date) => Ok(Alarm2Config::AtTimeOnDate { hours, minutes, date, is_pm }),
                    }
                },
            },
        }
    } else {
        Err(mask_error())
    }
}

// ---------------------------------------------------------------------------
// Encoding rules
// ---------------------------------------------------------------------------

/// The hours byte that a time configuration writes (mask bit clear).
pub open spec fn time_hours_byte(hours: u8, is_pm: Option<bool>) -> int {
    match is_pm {
        None => hours_byte(hours as int, None),
        Some(pm) => 64 + (if pm { 32int } else { 0int }) + bcd(twelve_hour(hours as int)),
    }
}

/// The alarm 1 registers (seconds, minutes, hours, day/date) that a configuration is written as.
pub open spec fn alarm1_encoded(c: Alarm1Config) -> (u8, u8, u8, u8) {
    match c {
        Alarm1Config::EverySecond => (128, 128, 128, 128),
        Alarm1Config::AtSeconds { seconds } => (bcd(seconds as int) as u8, 128, 128, 128),
        Alarm1Config::AtMinutesSeconds { minutes, seconds } =>
            (bcd(seconds as int) as u8, bcd(minutes as int) as u8, 128, 128),
        Alarm1Config::AtTime { hours, minutes, seconds, is_pm } =>
            (bcd(seconds as int) as u8, bcd(minutes as int) as u8, time_hours_byte(hours, is_pm) as u8, 128),
        Alarm1Config::AtTimeOnDate { hours, minutes, seconds, date, is_pm } =>
            (bcd(seconds as int) as u8, bcd(minutes as int) as u8, time_hours_byte(hours, is_pm) as u8,
             bcd(date as int) as u8),
        Alarm1Config::AtTimeOnDay { hours, minutes, seconds, day, is_pm } =>
            (bcd(seconds as int) as u8, bcd(minutes as int) as u8, time_hours_byte(hours, is_pm) as u8,
             (64 + day % 16) as u8),
    }
}

/// The alarm 2 registers (minutes, hours, day/date) that a configuration is written as.
pub open spec fn alarm2_encoded(c: Alarm2Config) -> (u8, u8, u8) {
    match c {
        Alarm2Config::EveryMinute => (128, 128, 128),
        Alarm2Config::AtMinutes { minutes } => (bcd(minutes as int) as u8, 128, 128),
        Alarm2Config::AtTime { hours, minutes, is_pm } =>
            (bcd(minutes as int) as u8, time_hours_byte(hours, is_pm) as u8, 128),
        Alarm2Config::AtTimeOnDate { hours, minutes, date, is_pm } =>
            (bcd(minutes as int) as u8, time_hours_byte(hours, is_pm) as u8, bcd(date as int) as u8),
        Alarm2Config::AtTimeOnDay { hours, minutes, day, is_pm } =>
            (bcd(minutes as int) as u8, time_hours_byte(hours, is_pm) as u8, (64 + day % 16) as u8),
    }
}

/// The digits of a BCD byte of a value below 60.
proof fn lemma_bcd_digits(v: int)
    requires
        0 <= v <= 59,
    ensures
        field(bcd(v) as u8, 1, 16) == v % 10,
        field(bcd(v) as u8, 16, 8) == v / 10,
        field(bcd(v) as u8, 128, 2) == 0,
        0 <= bcd(v) < 128,
{
}

/// Reading back the BCD byte of a valid date gives the date, in date mode.
proof fn lemma_date_round_trip(date: u8)
    requires
        1 <= date <= 31,
    ensures
        decode_date_byte(bcd(date as int) as u8) == Ok::<u8, AlarmError>(date),
        field(bcd(date as int) as u8, 64, 2) == 0,
        !masked(bcd(date as int) as u8),
{
    let b = bcd(date as int) as u8;
    assert(field(b, 1, 16) == date % 10);
    assert(field(b, 16, 4) == date / 10);
}

/// The day-of-week byte is read back in day mode.
proof fn lemma_day_round_trip(day: u8)
    requires
        1 <= day <= 7,
    ensures
        field((64 + day % 16) as u8, 64, 2) == 1,
        field((64 + day % 16) as u8, 1, 16) == day,
        !masked((64 + day % 16) as u8),
{
}

/// Reading back the hours byte of a valid hour gives the hour.
proof fn lemma_hours_round_trip(hours: u8, is_pm: Option<bool>)
    requires
        hours_check(hours, is_pm) is Ok,
    ensures
        decode_hours_byte(time_hours_byte(hours, is_pm) as u8) == Ok::<(u8, Option<bool>), AlarmError>((hours, is_pm)),
        !masked(time_hours_byte(hours, is_pm) as u8),
{
    let b = time_hours_byte(hours, is_pm) as u8;
    match is_pm {
        None => {
            assert(field(b, 1, 16) == hours % 10);
            assert(field(b, 16, 2) == (hours / 10) % 2);
            assert(field(b, 32, 2) == (if hours >= 20 { 1int } else { 0int }));
            assert(field(b, 64, 2) == 0);
        },
        Some(pm) => {
            assert(twelve_hour(hours as int) == hours);
            assert(field(b, 1, 16) == hours % 10);
            assert(field(b, 16, 2) == hours / 10);
            assert(field(b, 32, 2) == (if pm { 1int } else { 0int }));
            assert(field(b, 64, 2) == 1);
        },
    }
}

/// Reading back the digits of a valid time gives the time.
proof fn lemma_time_round_trip(hours: u8, minutes: u8, seconds: u8, is_pm: Option<bool>)
    requires
        time_check1(hours, minutes, seconds, is_pm) is Ok,
    ensures
        decode_seconds_byte(bcd(seconds as int) as u8) == Ok::<u8, AlarmError>(seconds),
        decode_minutes_byte(bcd(minutes as int) as u8) == Ok::<u8, AlarmError>(minutes),
        decode_hours_byte(time_hours_byte(hours, is_pm) as u8) == Ok::<(u8, Option<bool>), AlarmError>((hours, is_pm)),
        !masked(bcd(seconds as int) as u8),
        !masked(bcd(minutes as int) as u8),
        !masked(time_hours_byte(hours, is_pm) as u8),
{
    lemma_bcd_digits(seconds as int);
    lemma_bcd_digits(minutes as int);
    lemma_hours_round_trip(hours, is_pm);
}

/// Decoding the alarm 1 registers written for a valid configuration gives the configuration back.
pub proof fn lemma_alarm1_round_trip(c: Alarm1Config)
    requires
        c.validation() is Ok,
    ensures
        alarm1_decoded(alarm1_encoded(c)) == Ok::<Alarm1Config, AlarmError>(c),
{
    match c {
        Alarm1Config::EverySecond => {},
        Alarm1Config::AtSeconds { seconds } => {
            lemma_time_round_trip(0, 0, seconds, None);
        },
        Alarm1Config::AtMinutesSeconds { minutes, seconds } => {
            lemma_time_round_trip(0, minutes, seconds, None);
        },
        Alarm1Config::AtTime { hours, minutes, seconds, is_pm } => {
            lemma_time_round_trip(hours, minutes, seconds, is_pm);
        },
        Alarm1Config::AtTimeOnDate { hours, minutes, seconds, date, is_pm } => {
            lemma_time_round_trip(hours, minutes, seconds, is_pm);
            lemma_date_round_trip(date);
        },
        Alarm1Config::AtTimeOnDay { hours, minutes, seconds, day, is_pm } => {
            lemma_time_round_trip(hours, minutes, seconds, is_pm);
            lemma_day_round_trip(day);
        },
    }
}

/// Decoding the alarm 2 registers written for a valid configuration gives the configuration back.
pub proof fn lemma_alarm2_round_trip(c: Alarm2Config)
    requires
        c.validation() is Ok,
    ensures
        alarm2_decoded(alarm2_encoded(c)) == Ok::<Alarm2Config, AlarmError>(c),
{
    match c {
        Alarm2Config::EveryMinute => {},
        Alarm2Config::AtMinutes { minutes } => {
            lemma_time_round_trip(0, minutes, 0, None);
        },
        Alarm2Config::AtTime { hours, minutes, is_pm } => {
            lemma_time_round_trip(hours, minutes, 0, is_pm);
        },
        Alarm2Config::AtTimeOnDate { hours, minutes, date, is_pm } => {
            lemma_time_round_trip(hours, minutes, 0, is_pm);
            lemma_date_round_trip(date);
        },
        Alarm2Config::AtTimeOnDay { hours, minutes, day, is_pm } => {
            lemma_time_round_trip(hours, minutes, 0, is_pm);
            lemma_day_round_trip(day);
        },
    }
}

/// What the field decoders accept lies in the ranges that validation allows.
proof fn lemma_decoded_fields(s: u8, m: u8, h: u8, d: u8)
    ensures
        decode_seconds_byte(s) matches Ok(v) ==> v <= 59,
        decode_minutes_byte(m) matches Ok(v) ==> v <= 59,
        decode_hours_byte(h) matches Ok((v, pm)) ==> hours_check(v, pm) is Ok,
        decode_date_byte(d) matches Ok(v) ==> date_check(v) is Ok,
{
}

/// Registers that decode to an alarm 1 configuration decode to a valid one.
pub proof fn lemma_alarm1_decoded_valid(regs: (u8, u8, u8, u8))
    ensures
        alarm1_decoded(regs) matches Ok(c) ==> c.validation() is Ok,
{
    lemma_decoded_fields(regs.0, regs.1, regs.2, regs.3);
}

/// Registers that decode to an alarm 2 configuration decode to a valid one.
pub proof fn lemma_alarm2_decoded_valid(regs: (u8, u8, u8))
    ensures
        alarm2_decoded(regs) matches Ok(c) ==> c.validation() is Ok,
{
    lemma_decoded_fields(0, regs.0, regs.1, regs.2);
}

// ---------------------------------------------------------------------------
// Alarm 1 registers
// ---------------------------------------------------------------------------

/// The four alarm 1 registers of the DS3231.
#[derive(Debug, Copy, Clone, PartialEq, Eq, Structural)]
pub struct DS3231Alarm1 {
    seconds: AlarmSeconds,
    minutes: AlarmMinutes,
    hours: AlarmHours,
    day_date: AlarmDayDate,
}

impl View for DS3231Alarm1 {
    type V = (u8, u8, u8, u8);

    /// The register bytes: seconds, minutes, hours, day/date.
    closed spec fn view(&self) -> (u8, u8, u8, u8) {
        (self.seconds.0, self.minutes.0, self.hours.0, self.day_date.0)
    }
}

impl DS3231Alarm1 {
    /// Creates the alarm 1 registers for a configuration.
    ///
    /// # Errors
    ///
    /// Returns the validation error of an invalid configuration.
    pub fn from_config(config: &Alarm1Config) -> (r: Result<Self, AlarmError>)
        ensures
            config.validation() is Err <==> r is Err,
            r matches Err(e) ==> config.validation() == Err::<(), AlarmError>(e),
            r matches Ok(a) ==> a@ == alarm1_encoded(*config),
    {
        match config.validate() {
            Err(e) => return Err(e),
            Ok(()) => {},
        }
        let mut alarm = Self {
            seconds: AlarmSeconds(0),
            minutes: AlarmMinutes(0),
            hours: AlarmHours(0),
            day_date: AlarmDayDate(0),
        };
        proof { reveal_view(alarm); }
        match config {
            Alarm1Config::EverySecond => {
                Self::configure_every_second(&mut alarm);
            },
            Alarm1Config::AtSeconds { seconds: sec } => {
                Self::configure_at_seconds(&mut alarm, *sec);
            },
            Alarm1Config::AtMinutesSeconds { minutes: min, seconds: sec } => {
                Self::configure_at_minutes_seconds(&mut alarm, *min, *sec);
            },
            Alarm1Config::AtTime { hours: hr, minutes: min, seconds: sec, is_pm } => {
                Self::configure_at_time(&mut alarm, *hr, *min, *sec, *is_pm);
            },
            Alarm1Config::AtTimeOnDate { hours: hr, minutes: min, seconds: sec, date, is_pm } => {
                Self::configure_at_time_on_date(&mut alarm, *hr, *min, *sec, *date, *is_pm);
            },
            Alarm1Config::AtTimeOnDay { hours: hr, minutes: min, seconds: sec, day, is_pm } => {
                Self::configure_at_time_on_day(&mut alarm, *hr, *min, *sec, *day, *is_pm);
            },
        }
        Ok(alarm)
    }

    /// Converts the register values back to an `Alarm1Config`.
    ///
    /// # Errors
    ///
    /// Returns an error if the register values don't form a valid configuration
    /// (mask bits that name none, a day of week outside 1-7) or contain invalid
    /// BCD values.
    pub fn to_config(&self) -> (r: Result<Alarm1Config, AlarmError>)
        ensures
            r == alarm1_decoded(self@),
            r matches Ok(c) ==> c.validation() is Ok,
    {
        proof { lemma_alarm1_decoded_valid(self@); }
        let mask1 = self.seconds.alarm_mask1();
        let mask2 = self.minutes.alarm_mask2();
        let mask3 = self.hours.alarm_mask3();
        let mask4 = self.day_date.alarm_mask4();
        if mask1 && mask2 && mask3 && mask4 {
            Ok(Alarm1Config::EverySecond)
        } else if !mask1 && mask2 && mask3 && mask4 {
            let seconds = match self.decode_bcd_seconds() {
                Ok(v) => v,
                Err(e) => return Err(e),
            };
            Ok(Alarm1Config::AtSeconds { seconds })
        } else if !mask1 && !mask2 && mask3 && mask4 {
            let seconds = match self.decode_bcd_seconds() {
                Ok(v) => v,
                Err(e) => return Err(e),
            };
            let minutes = match self.decode_bcd_minutes() {
                Ok(v) => v,
                Err(e) => return Err(e),
            };
            Ok(Alarm1Config::AtMinutesSeconds { minutes, seconds })
        } else if !mask1 && !mask2 && !mask3 {
            let seconds = match self.decode_bcd_seconds() {
                Ok(v) => v,
                Err(e) => return Err(e),
            };
            let minutes = match self.decode_bcd_minutes() {
                Ok(v) => v,
                Err(e) => return Err(e),
            };
            let (hours, is_pm) = match self.decode_bcd_hours() {
                Ok(v) => v,
                Err(e) => return Err(e),
            };
            if mask4 {
                Ok(Alarm1Config::AtTime { hours, minutes, seconds, is_pm })
            } else if self.day_date.day_date_select() == DayDateSelect::Day {
                let day = self.day_date.day_or_date();
                if day == 0 || day > 7 {
                    return Err(AlarmError::InvalidDayOfWeek);
                }
                Ok(Alarm1Config::AtTimeOnDay { hours, minutes, seconds, day, is_pm })
            } else {
                let date = match self.decode_bcd_day_date() {
                    Ok(v) => v,
                    Err(e) => return Err(e),
                };
                Ok(Alarm1Config::AtTimeOnDate { hours, minutes, seconds, date, is_pm })
            }
        } else {
            Err(AlarmError::InvalidTime("Invalid alarm mask bit combination"))
        }
    }

    /// Decodes the BCD seconds register.
    pub fn decode_bcd_seconds(self) -> (r: Result<u8, AlarmError>)
        ensures
            r == decode_seconds_byte(self@.0),
    {
        let ones = self.seconds.seconds();
        let tens = self.seconds.ten_seconds();
        if ones > 9 || tens > 5 {
            return Err(AlarmError::InvalidTime("Invalid BCD seconds value"));
        }
        Ok(tens * 10 + ones)
    }

    /// Decodes the BCD minutes register.
    pub fn decode_bcd_minutes(self) -> (r: Result<u8, AlarmError>)
        ensures
            r == decode_minutes_byte(self@.1),
    {
        let ones = self.minutes.minutes();
        let tens = self.minutes.ten_minutes();
        if ones > 9 || tens > 5 {
            return Err(AlarmError::InvalidTime("Invalid BCD minutes value"));
        }
        Ok(tens * 10 + ones)
    }

    /// Decodes the hours register: the hour and the PM flag (`None` in 24-hour mode).
    pub fn decode_bcd_hours(self) -> (r: Result<(u8, Option<bool>), AlarmError>)
        ensures
            r == decode_hours_byte(self@.2),
    {
        decode_hours_register(self.hours)
    }

    /// Decodes the BCD date register.
    pub fn decode_bcd_day_date(self) -> (r: Result<u8, AlarmError>)
        ensures
            r == decode_date_byte(self@.3),
    {
        decode_date_register(self.day_date)
    }

    fn configure_every_second(alarm: &mut Self)
        requires
            old(alarm)@ == (0u8, 0u8, 0u8, 0u8),
        ensures
            final(alarm)@ == alarm1_encoded(Alarm1Config::EverySecond),
    {
        alarm.seconds.set_alarm_mask1(true);
        alarm.minutes.set_alarm_mask2(true);
        alarm.hours.set_alarm_mask3(true);
        alarm.day_date.set_alarm_mask4(true);
    }

    fn configure_at_seconds(alarm: &mut Self, sec: u8)
        requires
            old(alarm)@ == (0u8, 0u8, 0u8, 0u8),
            sec <= 59,
        ensures
            final(alarm)@ == alarm1_encoded(Alarm1Config::AtSeconds { seconds: sec }),
    {
        alarm.seconds = bcd_seconds_register(sec);
        alarm.seconds.set_alarm_mask1(false);
        alarm.minutes.set_alarm_mask2(true);
        alarm.hours.set_alarm_mask3(true);
        alarm.day_date.set_alarm_mask4(true);
    }

    fn configure_at_minutes_seconds(alarm: &mut Self, min: u8, sec: u8)
        requires
            old(alarm)@ == (0u8, 0u8, 0u8, 0u8),
            sec <= 59,
            min <= 59,
        ensures
            final(alarm)@ == alarm1_encoded(Alarm1Config::AtMinutesSeconds { minutes: min, seconds: sec }),
    {
        alarm.seconds = bcd_seconds_register(sec);
        alarm.seconds.set_alarm_mask1(false);
        alarm.minutes = bcd_minutes_register(min);
        alarm.minutes.set_alarm_mask2(false);
        alarm.hours.set_alarm_mask3(true);
        alarm.day_date.set_alarm_mask4(true);
    }

    fn configure_at_time(alarm: &mut Self, hr: u8, min: u8, sec: u8, is_pm: Option<bool>)
        requires
            old(alarm)@ == (0u8, 0u8, 0u8, 0u8),
            time_check1(hr, min, sec, is_pm) is Ok,
        ensures
            final(alarm)@ == alarm1_encoded(Alarm1Config::AtTime { hours: hr, minutes: min, seconds: sec, is_pm }),
    {
        Self::set_time_components(&mut alarm.seconds, &mut alarm.minutes, &mut alarm.hours, hr, min, sec, is_pm);
        alarm.seconds.set_alarm_mask1(false);
        alarm.minutes.set_alarm_mask2(false);
        alarm.hours.set_alarm_mask3(false);
        alarm.day_date.set_alarm_mask4(true);
    }

    fn configure_at_time_on_date(alarm: &mut Self, hr: u8, min: u8, sec: u8, date: u8, is_pm: Option<bool>)
        requires
            old(alarm)@ == (0u8, 0u8, 0u8, 0u8),
            time_check1(hr, min, sec, is_pm) is Ok,
            1 <= date <= 31,
        ensures
            final(alarm)@ == alarm1_encoded(
                Alarm1Config::AtTimeOnDate { hours: hr, minutes: min, seconds: sec, date, is_pm },
            ),
    {
        Self::set_time_components(&mut alarm.seconds, &mut alarm.minutes, &mut alarm.hours, hr, min, sec, is_pm);
        alarm.seconds.set_alarm_mask1(false);
        alarm.minutes.set_alarm_mask2(false);
        alarm.hours.set_alarm_mask3(false);
        alarm.day_date.set_alarm_mask4(false);
        alarm.day_date = match create_alarm_day_date_component(date, false) {
            Ok(d) => d,
            Err(_) => AlarmDayDate(0),
        };
    }

    fn configure_at_time_on_day(alarm: &mut Self, hr: u8, min: u8, sec: u8, day: u8, is_pm: Option<bool>)
        requires
            old(alarm)@ == (0u8, 0u8, 0u8, 0u8),
            time_check1(hr, min, sec, is_pm) is Ok,
            1 <= day <= 7,
        ensures
            final(alarm)@ == alarm1_encoded(
                Alarm1Config::AtTimeOnDay { hours: hr, minutes: min, seconds: sec, day, is_pm },
            ),
    {
        Self::set_time_components(&mut alarm.seconds, &mut alarm.minutes, &mut alarm.hours, hr, min, sec, is_pm);
        alarm.seconds.set_alarm_mask1(false);
        alarm.minutes.set_alarm_mask2(false);
        alarm.hours.set_alarm_mask3(false);
        alarm.day_date.set_alarm_mask4(false);
        alarm.day_date = match create_alarm_day_date_component(day, true) {
            Ok(d) => d,
            Err(_) => AlarmDayDate(0),
        };
    }

    /// Writes the BCD seconds into `seconds` and replaces `minutes` and `hours`
    /// by the registers of the time; mask bits are left to the caller.
    fn set_time_components(
        seconds: &mut AlarmSeconds,
        minutes: &mut AlarmMinutes,
        hours: &mut AlarmHours,
        hour: u8,
        minute: u8,
        second: u8,
        is_pm: Option<bool>,
    )
        requires
            old(seconds).0 == 0,
            time_check1(hour, minute, second, is_pm) is Ok,
        ensures
            final(seconds).0 == bcd(second as int),
            final(minutes).0 == bcd(minute as int),
            final(hours).0 == time_hours_byte(hour, is_pm),
    {
        *seconds = bcd_seconds_register(second);
        match create_alarm_time_components(hour, minute, is_pm) {
            Ok((new_minutes, new_hours)) => {
                *minutes = new_minutes;
                *hours = new_hours;
            },
            Err(_) => {},
        }
    }

    /// Gets the alarm seconds register
    pub fn seconds(&self) -> (r: AlarmSeconds)
        ensures r.0 == self@.0,
    {
        self.seconds
    }

    /// Gets the alarm minutes register
    pub fn minutes(&self) -> (r: AlarmMinutes)
        ensures r.0 == self@.1,
    {
        self.minutes
    }

    /// Gets the alarm hours register
    pub fn hours(&self) -> (r: AlarmHours)
        ensures r.0 == self@.2,
    {
        self.hours
    }

    /// Gets the alarm day/date register
    pub fn day_date(&self) -> (r: AlarmDayDate)
        ensures r.0 == self@.3,
    {
        self.day_date
    }

    /// Creates the alarm 1 registers from existing register values.
    pub fn from_registers(
        seconds: AlarmSeconds,
        minutes: AlarmMinutes,
        hours: AlarmHours,
        day_date: AlarmDayDate,
    ) -> (r: Self)
        ensures
            r@ == (seconds.0, minutes.0, hours.0, day_date.0),
    {
        DS3231Alarm1 { seconds, minutes, hours, day_date }
    }
}

// ---------------------------------------------------------------------------
// Alarm 2 registers
// ---------------------------------------------------------------------------

/// The three alarm 2 registers of the DS3231 (no seconds register).
#[derive(Debug, Copy, Clone, PartialEq, Eq, Structural)]
pub struct DS3231Alarm2 {
    minutes: AlarmMinutes,
    hours: AlarmHours,
    day_date: AlarmDayDate,
}

impl View for DS3231Alarm2 {
    type V = (u8, u8, u8);

    /// The register bytes: minutes, hours, day/date.
    closed spec fn view(&self) -> (u8, u8, u8) {
        (self.minutes.0, self.hours.0, self.day_date.0)
    }
}

impl DS3231Alarm2 {
    /// Creates the alarm 2 registers for a configuration.
    ///
    /// # Errors
    ///
    /// Returns the validation error of an invalid configuration.
    pub fn from_config(config: &Alarm2Config) -> (r: Result<Self, AlarmError>)
        ensures
            config.validation() is Err <==> r is Err,
            r matches Err(e) ==> config.validation() == Err::<(), AlarmError>(e),
            r matches Ok(a) ==> a@ == alarm2_encoded(*config),
    {
        match config.validate() {
            Err(e) => return Err(e),
            Ok(()) => {},
        }
        let mut minutes = AlarmMinutes(0);
        let mut hours = AlarmHours(0);
        let mut day_date = AlarmDayDate(0);
        match config {
            Alarm2Config::EveryMinute => {
                minutes.set_alarm_mask2(true);
                hours.set_alarm_mask3(true);
                day_date.set_alarm_mask4(true);
            },
            Alarm2Config::AtMinutes { minutes: min } => {
                minutes = bcd_minutes_register(*min);
                minutes.set_alarm_mask2(false);
                hours.set_alarm_mask3(true);
                day_date.set_alarm_mask4(true);
            },
            Alarm2Config::AtTime { hours: hr, minutes: min, is_pm } => {
                Self::set_time_components(&mut minutes, &mut hours, *hr, *min, *is_pm);
                minutes.set_alarm_mask2(false);
                hours.set_alarm_mask3(false);
                day_date.set_alarm_mask4(true);
            },
            Alarm2Config::AtTimeOnDate { hours: hr, minutes: min, date, is_pm } => {
                Self::set_time_components(&mut minutes, &mut hours, *hr, *min, *is_pm);
                minutes.set_alarm_mask2(false);
                hours.set_alarm_mask3(false);
                day_date.set_alarm_mask4(false);
                day_date = match create_alarm_day_date_component(*date, false) {
                    Ok(d) => d,
                    Err(e) => return Err(e),
                };
            },
            Alarm2Config::AtTimeOnDay { hours: hr, minutes: min, day, is_pm } => {
                Self::set_time_components(&mut minutes, &mut hours, *hr, *min, *is_pm);
                minutes.set_alarm_mask2(false);
                hours.set_alarm_mask3(false);
                day_date.set_alarm_mask4(false);
                day_date = match create_alarm_day_date_component(*day, true) {
                    Ok(d) => d,
                    Err(e) => return Err(e),
                };
            },
        }
        let alarm = DS3231Alarm2 { minutes, hours, day_date };
        proof { reveal_view2(alarm); }
        Ok(alarm)
    }

    /// Converts the register values back to an `Alarm2Config`.
    ///
    /// # Errors
    ///
    /// Returns an error if the register values don't form a valid configuration
    /// (mask bits that name none, a day of week outside 1-7) or contain invalid
    /// BCD values.
    pub fn to_config(&self) -> (r: Result<Alarm2Config, AlarmError>)
        ensures
            r == alarm2_decoded(self@),
            r matches Ok(c) ==> c.validation() is Ok,
    {
        proof { lemma_alarm2_decoded_valid(self@); }
        let mask2 = self.minutes.alarm_mask2();
        let mask3 = self.hours.alarm_mask3();
        let mask4 = self.day_date.alarm_mask4();
        if mask2 && mask3 && mask4 {
            Ok(Alarm2Config::EveryMinute)
        } else if !mask2 && mask3 && mask4 {
            let minutes = match self.decode_bcd_minutes() {
                Ok(v) => v,
                Err(e) => return Err(e),
            };
            Ok(Alarm2Config::AtMinutes { minutes })
        } else if !mask2 && !mask3 {
            let minutes = match self.decode_bcd_minutes() {
                Ok(v) => v,
                Err(e) => return Err(e),
            };
            let (hours, is_pm) = match self.decode_bcd_hours() {
                Ok(v) => v,
                Err(e) => return Err(e),
            };
            if mask4 {
                Ok(Alarm2Config::AtTime { hours, minutes, is_pm })
            } else if self.day_date.day_date_select() == DayDateSelect::Day {
                let day = self.day_date.day_or_date();
                if day == 0 || day > 7 {
                    return Err(AlarmError::InvalidDayOfWeek);
                }
                Ok(Alarm2Config::AtTimeOnDay { hours, minutes, day, is_pm })
            } else {
                let date = match self.decode_bcd_day_date() {
                    Ok(v) => v,
                    Err(e) => return Err(e),
                };
                Ok(Alarm2Config::AtTimeOnDate { hours, minutes, date, is_pm })
            }
        } else {
            Err(AlarmError::InvalidTime("Invalid alarm mask bit combination"))
        }
    }

    /// Decodes the BCD minutes register.
    pub fn decode_bcd_minutes(self) -> (r: Result<u8, AlarmError>)
        ensures
            r == decode_minutes_byte(self@.0),
    {
        let ones = self.minutes.minutes();
        let tens = self.minutes.ten_minutes();
        if ones > 9 || tens > 5 {
            return Err(AlarmError::InvalidTime("Invalid BCD minutes value"));
        }
        Ok(tens * 10 + ones)
    }

    /// Decodes the hours register: the hour and the PM flag (`None` in 24-hour mode).
    pub fn decode_bcd_hours(self) -> (r: Result<(u8, Option<bool>), AlarmError>)
        ensures
            r == decode_hours_byte(self@.1),
    {
        decode_hours_register(self.hours)
    }

    /// Decodes the BCD date register.
    pub fn decode_bcd_day_date(self) -> (r: Result<u8, AlarmError>)
        ensures
            r == decode_date_byte(self@.2),
    {
        decode_date_register(self.day_date)
    }

    /// Replaces `minutes` and `hours` by the registers of the time; mask bits are
    /// left to the caller.
    fn set_time_components(minutes: &mut AlarmMinutes, hours: &mut AlarmHours, hour: u8, minute: u8, is_pm: Option<bool>)
        requires
            time_check2(hour, minute, is_pm) is Ok,
        ensures
            final(minutes).0 == bcd(minute as int),
            final(hours).0 == time_hours_byte(hour, is_pm),
    {
        match create_alarm_time_components(hour, minute, is_pm) {
            Ok((new_minutes, new_hours)) => {
                *minutes = new_minutes;
                *hours = new_hours;
            },
            Err(_) => {},
        }
    }

    /// Gets the alarm minutes register
    pub fn minutes(&self) -> (r: AlarmMinutes)
        ensures r.0 == self@.0,
    {
        self.minutes
    }

    /// Gets the alarm hours register
    pub fn hours(&self) -> (r: AlarmHours)
        ensures r.0 == self@.1,
    {
        self.hours
    }

    /// Gets the alarm day/date register
    pub fn day_date(&self) -> (r: AlarmDayDate)
        ensures r.0 == self@.2,
    {
        self.day_date
    }

    /// Creates the alarm 2 registers from existing register values.
    pub fn from_registers(minutes: AlarmMinutes, hours: AlarmHours, day_date: AlarmDayDate) -> (r: Self)
        ensures
            r@ == (minutes.0, hours.0, day_date.0),
    {
        DS3231Alarm2 { minutes, hours, day_date }
    }
}

/// Makes the view of freshly built alarm 2 registers visible here.
proof fn reveal_view2(a: DS3231Alarm2)
    ensures
        a@ == (a.minutes.0, a.hours.0, a.day_date.0),
{
}

/// Makes the view of freshly built alarm 1 registers visible here.
proof fn reveal_view(a: DS3231Alarm1)
    ensures
        a@ == (a.seconds.0, a.minutes.0, a.hours.0, a.day_date.0),
{
}

/// A seconds register holding the BCD digits of `sec` (mask bit clear).
fn bcd_seconds_register(sec: u8) -> (r: AlarmSeconds)
    requires
        sec <= 59,
    ensures
        r.0 == bcd(sec as int),
{
    let mut r = AlarmSeconds(0);
    match make_bcd(sec as u32, 59) {
        Ok((ones, tens)) => {
            r.set_seconds(ones);
            assert(r.0 == ones);
            r.set_ten_seconds(tens);
        },
        Err(_) => {},
    }
    r
}

/// A minutes register holding the BCD digits of `min` (mask bit clear).
fn bcd_minutes_register(min: u8) -> (r: AlarmMinutes)
    requires
        min <= 59,
    ensures
        r.0 == bcd(min as int),
{
    let mut r = AlarmMinutes(0);
    match make_bcd(min as u32, 59) {
        Ok((ones, tens)) => {
            r.set_minutes(ones);
            assert(r.0 == ones);
            r.set_ten_minutes(tens);
        },
        Err(_) => {},
    }
    r
}

/// Decodes an alarm hours register (shared by both alarms).
fn decode_hours_register(h: AlarmHours) -> (r: Result<(u8, Option<bool>), AlarmError>)
    ensures
        r == decode_hours_byte(h.0),
{
    let ones = h.hours();
    let tens = h.ten_hours();
    if ones > 9 || tens > 2 {
        return Err(AlarmError::InvalidTime("Invalid BCD hours value"));
    }
    match h.time_representation() {
        TimeRepresentation::TwentyFourHour => {
            let twenty_hours = h.pm_or_twenty_hours();
            let hours = twenty_hours * 20 + tens * 10 + ones;
            if hours > 23 {
                return Err(AlarmError::InvalidTime("Invalid 24-hour value"));
            }
            Ok((hours, None))
        },
        TimeRepresentation::TwelveHour => {
            let hours = tens * 10 + ones;
            if hours == 0 || hours > 12 {
                return Err(AlarmError::InvalidTime("Invalid 12-hour value"));
            }
            let is_pm = h.pm_or_twenty_hours() != 0;
            Ok((hours, Some(is_pm)))
        },
    }
}

/// Decodes an alarm day/date register in date mode (shared by both alarms).
fn decode_date_register(d: AlarmDayDate) -> (r: Result<u8, AlarmError>)
    ensures
        r == decode_date_byte(d.0),
{
    let ones = d.day_or_date();
    let tens = d.ten_date();
    if ones > 9 || tens > 3 {
        return Err(AlarmError::InvalidTime("Invalid BCD date value"));
    }
    let date = tens * 10 + ones;
    if date == 0 || date > 31 {
        return Err(AlarmError::InvalidTime("Invalid date value"));
    }
    Ok(date)
}

} // verus!
