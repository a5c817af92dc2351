//! Register layout of the DS3231 real-time clock.
//!
//! Each register is a byte; its fields are read and written through the
//! arithmetic bit-field helpers of [`crate::bits`], so every accessor states
//! exactly which bits it reads or writes.

use vstd::prelude::*;
use vstd::std_specs::convert::FromSpecImpl;
use crate::bits::{field, with_field, get_field, put_field};

verus! {

/// Register addresses of the DS3231.
#[derive(Copy, Clone, Debug, PartialEq, Eq, Structural)]
pub enum RegAddr {
    /// Seconds register (0-59)
    Seconds,
    /// Minutes register (0-59)
    Minutes,
    /// Hours register (1-12 + AM/PM or 0-23)
    Hours,
    /// Day register (1-7)
    Day,
    /// Date register (1-31)
    Date,
    /// Month register (1-12)
    Month,
    /// Year register (0-99)
    Year,
    /// Alarm 1 seconds register
    Alarm1Seconds,
    /// Alarm 1 minutes register
    Alarm1Minutes,
    /// Alarm 1 hours register
    Alarm1Hours,
    /// Alarm 1 day/date register
    Alarm1DayDate,
    /// Alarm 2 minutes register
    Alarm2Minutes,
    /// Alarm 2 hours register
    Alarm2Hours,
    /// Alarm 2 day/date register
    Alarm2DayDate,
    /// Control register
    Control,
    /// Control/Status register
    ControlStatus,
    /// Aging offset register
    AgingOffset,
    /// Temperature MSB register
    MSBTemp,
    /// Temperature LSB register
    LSBTemp,
}

impl RegAddr {
    /// The address of the register on the I2C bus, in register-map order.
    pub open spec fn spec_address(self) -> u8 {
        match self {
            RegAddr::Seconds => 0x00,
            RegAddr::Minutes => 0x01,
            RegAddr::Hours => 0x02,
            RegAddr::Day => 0x03,
            RegAddr::Date => 0x04,
            RegAddr::Month => 0x05,
            RegAddr::Year => 0x06,
            RegAddr::Alarm1Seconds => 0x07,
            RegAddr::Alarm1Minutes => 0x08,
            RegAddr::Alarm1Hours => 0x09,
            RegAddr::Alarm1DayDate => 0x0A,
            RegAddr::Alarm2Minutes => 0x0B,
            RegAddr::Alarm2Hours => 0x0C,
            RegAddr::Alarm2DayDate => 0x0D,
            RegAddr::Control => 0x0E,
            RegAddr::ControlStatus => 0x0F,
            RegAddr::AgingOffset => 0x10,
            RegAddr::MSBTemp => 0x11,
            RegAddr::LSBTemp => 0x12,
        }
    }

    /// The address of the register on the I2C bus.
    pub fn address(&self) -> (r: u8)
        ensures r == self.spec_address(),
    {
        match self {
            RegAddr::Seconds => 0x00,
            RegAddr::Minutes => 0x01,
            RegAddr::Hours => 0x02,
            RegAddr::Day => 0x03,
            RegAddr::Date => 0x04,
            RegAddr::Month => 0x05,
            RegAddr::Year => 0x06,
            RegAddr::Alarm1Seconds => 0x07,
            RegAddr::Alarm1Minutes => 0x08,
            RegAddr::Alarm1Hours => 0x09,
            RegAddr::Alarm1DayDate => 0x0A,
            RegAddr::Alarm2Minutes => 0x0B,
            RegAddr::Alarm2Hours => 0x0C,
            RegAddr::Alarm2DayDate => 0x0D,
            RegAddr::Control => 0x0E,
            RegAddr::ControlStatus => 0x0F,
            RegAddr::AgingOffset => 0x10,
            RegAddr::MSBTemp => 0x11,
            RegAddr::LSBTemp => 0x12,
        }
    }
}

/// Time representation format for the DS3231.
#[derive(Copy, Clone, Debug, PartialEq, Eq, Structural)]
pub enum TimeRepresentation {
    /// 24-hour format (0-23)
    TwentyFourHour,
    /// 12-hour format (1-12 + AM/PM)
    TwelveHour,
}

impl TimeRepresentation {
    /// The variant whose raw register value is `v`.
    pub open spec fn from_bits_spec(v: u8) -> TimeRepresentation {
        if v == 0 { TimeRepresentation::TwentyFourHour }
        else { TimeRepresentation::TwelveHour }
    }

    /// The raw register value of the variant.
    pub open spec fn bits_spec(self) -> u8 {
        match self {
            TimeRepresentation::TwentyFourHour => 0,
            TimeRepresentation::TwelveHour => 1,
        }
    }

    /// Creates a `TimeRepresentation` from a raw register value; only the values
    /// 0 to 1 name a variant.
    pub fn from(v: u8) -> (r: TimeRepresentation)
        requires v < 2,
        ensures r == TimeRepresentation::from_bits_spec(v), r.bits_spec() == v,
    {
        if v == 0 { TimeRepresentation::TwentyFourHour }
        else { TimeRepresentation::TwelveHour }
    }
}

impl From<TimeRepresentation> for u8 {
    /// Converts a `TimeRepresentation` to its raw register value.
    fn from(v: TimeRepresentation) -> (r: u8) {
        match v {
            TimeRepresentation::TwentyFourHour => 0,
            TimeRepresentation::TwelveHour => 1,
        }
    }
}

impl FromSpecImpl<TimeRepresentation> for u8 {
    open spec fn obeys_from_spec() -> bool { true }
    open spec fn from_spec(v: TimeRepresentation) -> u8 { v.bits_spec() }
}

/// Oscillator control for the DS3231.
#[derive(Copy, Clone, Debug, PartialEq, Eq, Structural)]
pub enum Oscillator {
    /// Oscillator is enabled
    Enabled,
    /// Oscillator is disabled
    Disabled,
}

impl Oscillator {
    /// The variant whose raw register value is `v`.
    pub open spec fn from_bits_spec(v: u8) -> Oscillator {
        if v == 0 { Oscillator::Enabled }
        else { Oscillator::Disabled }
    }

    /// The raw register value of the variant.
    pub open spec fn bits_spec(self) -> u8 {
        match self {
            Oscillator::Enabled => 0,
            Oscillator::Disabled => 1,
        }
    }

    /// Creates a `Oscillator` from a raw register value; only the values
    /// 0 to 1 name a variant.
    pub fn from(v: u8) -> (r: Oscillator)
        requires v < 2,
        ensures r == Oscillator::from_bits_spec(v), r.bits_spec() == v,
    {
        if v == 0 { Oscillator::Enabled }
        else { Oscillator::Disabled }
    }
}

impl From<Oscillator> for u8 {
    /// Converts a `Oscillator` to its raw register value.
    fn from(v: Oscillator) -> (r: u8) {
        match v {
            Oscillator::Enabled => 0,
            Oscillator::Disabled => 1,
        }
    }
}

impl FromSpecImpl<Oscillator> for u8 {
    open spec fn obeys_from_spec() -> bool { true }
    open spec fn from_spec(v: Oscillator) -> u8 { v.bits_spec() }
}

/// Interrupt control mode for the DS3231.
#[derive(Copy, Clone, Debug, PartialEq, Eq, Structural)]
pub enum InterruptControl {
    /// Output square wave on INT/SQW pin
    SquareWave,
    /// Output interrupt signal on INT/SQW pin
    Interrupt,
}

impl InterruptControl {
    /// The variant whose raw register value is `v`.
    pub open spec fn from_bits_spec(v: u8) -> InterruptControl {
        if v == 0 { InterruptControl::SquareWave }
        else { InterruptControl::Interrupt }
    }

    /// The raw register value of the variant.
    pub open spec fn bits_spec(self) -> u8 {
        match self {
            InterruptControl::SquareWave => 0,
            InterruptControl::Interrupt => 1,
        }
    }

    /// Creates a `InterruptControl` from a raw register value; only the values
    /// 0 to 1 name a variant.
    pub fn from(v: u8) -> (r: InterruptControl)
        requires v < 2,
        ensures r == InterruptControl::from_bits_spec(v), r.bits_spec() == v,
    {
        if v == 0 { InterruptControl::SquareWave }
        else { InterruptControl::Interrupt }
    }
}

impl From<InterruptControl> for u8 {
    /// Converts a `InterruptControl` to its raw register value.
    fn from(v: InterruptControl) -> (r: u8) {
        match v {
            InterruptControl::SquareWave => 0,
            InterruptControl::Interrupt => 1,
        }
    }
}

impl FromSpecImpl<InterruptControl> for u8 {
    open spec fn obeys_from_spec() -> bool { true }
    open spec fn from_spec(v: InterruptControl) -> u8 { v.bits_spec() }
}

/// Square wave output frequency options.
#[derive(Copy, Clone, Debug, PartialEq, Eq, Structural)]
pub enum SquareWaveFrequency {
    /// 1 Hz square wave output
    Hz1,
    /// 1.024 kHz square wave output
    Hz1024,
    /// 4.096 kHz square wave output
    Hz4096,
    /// 8.192 kHz square wave output
    Hz8192,
}

impl SquareWaveFrequency {
    /// The variant whose raw register value is `v`.
    pub open spec fn from_bits_spec(v: u8) -> SquareWaveFrequency {
        if v == 0 { SquareWaveFrequency::Hz1 }
        else if v == 1 { SquareWaveFrequency::Hz1024 }
        else if v == 2 { SquareWaveFrequency::Hz4096 }
        else { SquareWaveFrequency::Hz8192 }
    }

    /// The raw register value of the variant.
    pub open spec fn bits_spec(self) -> u8 {
        match self {
            SquareWaveFrequency::Hz1 => 0,
            SquareWaveFrequency::Hz1024 => 1,
            SquareWaveFrequency::Hz4096 => 2,
            SquareWaveFrequency::Hz8192 => 3,
        }
    }

    /// Creates a `SquareWaveFrequency` from a raw register value; only the values
    /// 0 to 3 name a variant.
    pub fn from(v: u8) -> (r: SquareWaveFrequency)
        requires v < 4,
        ensures r == SquareWaveFrequency::from_bits_spec(v), r.bits_spec() == v,
    {
        if v == 0 { SquareWaveFrequency::Hz1 }
        else if v == 1 { SquareWaveFrequency::Hz1024 }
        else if v == 2 { SquareWaveFrequency::Hz4096 }
        else { SquareWaveFrequency::Hz8192 }
    }
}

impl From<SquareWaveFrequency> for u8 {
    /// Converts a `SquareWaveFrequency` to its raw register value.
    fn from(v: SquareWaveFrequency) -> (r: u8) {
        match v {
            SquareWaveFrequency::Hz1 => 0,
            SquareWaveFrequency::Hz1024 => 1,
            SquareWaveFrequency::Hz4096 => 2,
            SquareWaveFrequency::Hz8192 => 3,
        }
    }
}

impl FromSpecImpl<SquareWaveFrequency> for u8 {
    open spec fn obeys_from_spec() -> bool { true }
    open spec fn from_spec(v: SquareWaveFrequency) -> u8 { v.bits_spec() }
}

/// Day/date select for the alarm registers (DY/DT bit).
///
/// This controls whether the alarm day/date register matches against
/// the day of the week or the date of the month.
#[derive(Copy, Clone, Debug, PartialEq, Eq, Structural)]
pub enum DayDateSelect {
    /// Match against date of the month (1-31)
    Date,
    /// Match against day of the week (1-7, where 1 = Sunday)
    Day,
}

impl DayDateSelect {
    /// The variant whose raw register value is `v`.
    pub open spec fn from_bits_spec(v: u8) -> DayDateSelect {
        if v == 0 { DayDateSelect::Date }
        else { DayDateSelect::Day }
    }

    /// The raw register value of the variant.
    pub open spec fn bits_spec(self) -> u8 {
        match self {
            DayDateSelect::Date => 0,
            DayDateSelect::Day => 1,
        }
    }

    /// Creates a `DayDateSelect` from a raw register value; only the values
    /// 0 to 1 name a variant.
    pub fn from(v: u8) -> (r: DayDateSelect)
        requires v < 2,
        ensures r == DayDateSelect::from_bits_spec(v), r.bits_spec() == v,
    {
        if v == 0 { DayDateSelect::Date }
        else { DayDateSelect::Day }
    }
}

impl From<DayDateSelect> for u8 {
    /// Converts a `DayDateSelect` to its raw register value.
    fn from(v: DayDateSelect) -> (r: u8) {
        match v {
            DayDateSelect::Date => 0,
            DayDateSelect::Day => 1,
        }
    }
}

impl FromSpecImpl<DayDateSelect> for u8 {
    open spec fn obeys_from_spec() -> bool { true }
    open spec fn from_spec(v: DayDateSelect) -> u8 { v.bits_spec() }
}

/// Seconds register (0-59) with BCD encoding.
#[derive(Clone, Copy, Debug, PartialEq, Eq, Structural)]
pub struct Seconds(pub u8);

impl Default for Seconds {
    /// A register with every bit clear.
    fn default() -> (r: Seconds)
        ensures r.0 == 0,
    {
        Seconds(0)
    }
}

impl From<u8> for Seconds {
    fn from(v: u8) -> (r: Seconds) {
        Seconds(v)
    }
}

impl FromSpecImpl<u8> for Seconds {
    open spec fn obeys_from_spec() -> bool { true }
    open spec fn from_spec(v: u8) -> Seconds { Seconds(v) }
}

impl From<Seconds> for u8 {
    fn from(v: Seconds) -> (r: u8) {
        v.0
    }
}

impl FromSpecImpl<Seconds> for u8 {
    open spec fn obeys_from_spec() -> bool { true }
    open spec fn from_spec(v: Seconds) -> u8 { v.0 }
}

impl Seconds {
    /// Tens place of seconds (0-5).
    pub fn ten_seconds(&self) -> (r: u8)
        ensures r == field(self.0, 16, 8),
    {
        get_field(self.0, 16, 8)
    }

    /// Writes the field `ten_seconds`; the value is reduced to the field's width.
    pub fn set_ten_seconds(&mut self, v: u8)
        ensures final(self).0 == with_field(old(self).0, 16, 8, v as int),
    {
        self.0 = put_field(self.0, 16, 8, v);
    }

    /// Ones place of seconds (0-9).
    pub fn seconds(&self) -> (r: u8)
        ensures r == field(self.0, 1, 16),
    {
        get_field(self.0, 1, 16)
    }

    /// Writes the field `seconds`; the value is reduced to the field's width.
    pub fn set_seconds(&mut self, v: u8)
        ensures final(self).0 == with_field(old(self).0, 1, 16, v as int),
    {
        self.0 = put_field(self.0, 1, 16, v);
    }
}

/// Minutes register (0-59) with BCD encoding.
#[derive(Clone, Copy, Debug, PartialEq, Eq, Structural)]
pub struct Minutes(pub u8);

impl Default for Minutes {
    /// A register with every bit clear.
    fn default() -> (r: Minutes)
        ensures r.0 == 0,
    {
        Minutes(0)
    }
}

impl From<u8> for Minutes {
    fn from(v: u8) -> (r: Minutes) {
        Minutes(v)
    }
}

impl FromSpecImpl<u8> for Minutes {
    open spec fn obeys_from_spec() -> bool { true }
    open spec fn from_spec(v: u8) -> Minutes { Minutes(v) }
}

impl From<Minutes> for u8 {
    fn from(v: Minutes) -> (r: u8) {
        v.0
    }
}

impl FromSpecImpl<Minutes> for u8 {
    open spec fn obeys_from_spec() -> bool { true }
    open spec fn from_spec(v: Minutes) -> u8 { v.0 }
}

impl Minutes {
    /// Tens place of minutes (0-5).
    pub fn ten_minutes(&self) -> (r: u8)
        ensures r == field(self.0, 16, 8),
    {
        get_field(self.0, 16, 8)
    }

    /// Writes the field `ten_minutes`; the value is reduced to the field's width.
    pub fn set_ten_minutes(&mut self, v: u8)
        ensures final(self).0 == with_field(old(self).0, 16, 8, v as int),
    {
        self.0 = put_field(self.0, 16, 8, v);
    }

    /// Ones place of minutes (0-9).
    pub fn minutes(&self) -> (r: u8)
        ensures r == field(self.0, 1, 16),
    {
        get_field(self.0, 1, 16)
    }

    /// Writes the field `minutes`; the value is reduced to the field's width.
    pub fn set_minutes(&mut self, v: u8)
        ensures final(self).0 == with_field(old(self).0, 1, 16, v as int),
    {
        self.0 = put_field(self.0, 1, 16, v);
    }
}

/// Hours register with format selection and BCD encoding.
#[derive(Clone, Copy, Debug, PartialEq, Eq, Structural)]
pub struct Hours(pub u8);

impl Default for Hours {
    /// A register with every bit clear.
    fn default() -> (r: Hours)
        ensures r.0 == 0,
    {
        Hours(0)
    }
}

impl From<u8> for Hours {
    fn from(v: u8) -> (r: Hours) {
        Hours(v)
    }
}

impl FromSpecImpl<u8> for Hours {
    open spec fn obeys_from_spec() -> bool { true }
    open spec fn from_spec(v: u8) -> Hours { Hours(v) }
}

impl From<Hours> for u8 {
    fn from(v: Hours) -> (r: u8) {
        v.0
    }
}

impl FromSpecImpl<Hours> for u8 {
    open spec fn obeys_from_spec() -> bool { true }
    open spec fn from_spec(v: Hours) -> u8 { v.0 }
}

impl Hours {
    /// Time representation format (12/24 hour).
    pub fn time_representation(&self) -> (r: TimeRepresentation)
        ensures r == TimeRepresentation::from_bits_spec(field(self.0, 64, 2) as u8),
    {
        TimeRepresentation::from(get_field(self.0, 64, 2))
    }

    /// Writes the field `time_representation`.
    pub fn set_time_representation(&mut self, v: TimeRepresentation)
        ensures final(self).0 == with_field(old(self).0, 64, 2, v.bits_spec() as int),
    {
        self.0 = put_field(self.0, 64, 2, u8::from(v));
    }

    /// PM flag (12-hour) or 20-hour bit (24-hour).
    pub fn pm_or_twenty_hours(&self) -> (r: u8)
        ensures r == field(self.0, 32, 2),
    {
        get_field(self.0, 32, 2)
    }

    /// Writes the field `pm_or_twenty_hours`; the value is reduced to the field's width.
    pub fn set_pm_or_twenty_hours(&mut self, v: u8)
        ensures final(self).0 == with_field(old(self).0, 32, 2, v as int),
    {
        self.0 = put_field(self.0, 32, 2, v);
    }

    /// Tens place of hours.
    pub fn ten_hours(&self) -> (r: u8)
        ensures r == field(self.0, 16, 2),
    {
        get_field(self.0, 16, 2)
    }

    /// Writes the field `ten_hours`; the value is reduced to the field's width.
    pub fn set_ten_hours(&mut self, v: u8)
        ensures final(self).0 == with_field(old(self).0, 16, 2, v as int),
    {
        self.0 = put_field(self.0, 16, 2, v);
    }

    /// Ones place of hours.
    pub fn hours(&self) -> (r: u8)
        ensures r == field(self.0, 1, 16),
    {
        get_field(self.0, 1, 16)
    }

    /// Writes the field `hours`; the value is reduced to the field's width.
    pub fn set_hours(&mut self, v: u8)
        ensures final(self).0 == with_field(old(self).0, 1, 16, v as int),
    {
        self.0 = put_field(self.0, 1, 16, v);
    }
}

/// Day of week register (1-7).
#[derive(Clone, Copy, Debug, PartialEq, Eq, Structural)]
pub struct Day(pub u8);

impl Default for Day {
    /// A register with every bit clear.
    fn default() -> (r: Day)
        ensures r.0 == 0,
    {
        Day(0)
    }
}

impl From<u8> for Day {
    fn from(v: u8) -> (r: Day) {
        Day(v)
    }
}

impl FromSpecImpl<u8> for Day {
    open spec fn obeys_from_spec() -> bool { true }
    open spec fn from_spec(v: u8) -> Day { Day(v) }
}

impl From<Day> for u8 {
    fn from(v: Day) -> (r: u8) {
        v.0
    }
}

impl FromSpecImpl<Day> for u8 {
    open spec fn obeys_from_spec() -> bool { true }
    open spec fn from_spec(v: Day) -> u8 { v.0 }
}

impl Day {
    /// Day of week (1-7).
    pub fn day(&self) -> (r: u8)
        ensures r == field(self.0, 1, 8),
    {
        get_field(self.0, 1, 8)
    }

    /// Writes the field `day`; the value is reduced to the field's width.
    pub fn set_day(&mut self, v: u8)
        ensures final(self).0 == with_field(old(self).0, 1, 8, v as int),
    {
        self.0 = put_field(self.0, 1, 8, v);
    }
}

/// Date register (1-31) with BCD encoding.
#[derive(Clone, Copy, Debug, PartialEq, Eq, Structural)]
pub struct Date(pub u8);

impl Default for Date {
    /// A register with every bit clear.
    fn default() -> (r: Date)
        ensures r.0 == 0,
    {
        Date(0)
    }
}

impl From<u8> for Date {
    fn from(v: u8) -> (r: Date) {
        Date(v)
    }
}

impl FromSpecImpl<u8> for Date {
    open spec fn obeys_from_spec() -> bool { true }
    open spec fn from_spec(v: u8) -> Date { Date(v) }
}

impl From<Date> for u8 {
    fn from(v: Date) -> (r: u8) {
        v.0
    }
}

impl FromSpecImpl<Date> for u8 {
    open spec fn obeys_from_spec() -> bool { true }
    open spec fn from_spec(v: Date) -> u8 { v.0 }
}

impl Date {
    /// Tens place of date (0-3).
    pub fn ten_date(&self) -> (r: u8)
        ensures r == field(self.0, 16, 4),
    {
        get_field(self.0, 16, 4)
    }

    /// Writes the field `ten_date`; the value is reduced to the field's width.
    pub fn set_ten_date(&mut self, v: u8)
        ensures final(self).0 == with_field(old(self).0, 16, 4, v as int),
    {
        self.0 = put_field(self.0, 16, 4, v);
    }

    /// Ones place of date (0-9).
    pub fn date(&self) -> (r: u8)
        ensures r == field(self.0, 1, 16),
    {
        get_field(self.0, 1, 16)
    }

    /// Writes the field `date`; the value is reduced to the field's width.
    pub fn set_date(&mut self, v: u8)
        ensures final(self).0 == with_field(old(self).0, 1, 16, v as int),
    {
        self.0 = put_field(self.0, 1, 16, v);
    }
}

/// Month register (1-12) with century flag and BCD encoding.
#[derive(Clone, Copy, Debug, PartialEq, Eq, Structural)]
pub struct Month(pub u8);

impl Default for Month {
    /// A register with every bit clear.
    fn default() -> (r: Month)
        ensures r.0 == 0,
    {
        Month(0)
    }
}

impl From<u8> for Month {
    fn from(v: u8) -> (r: Month) {
        Month(v)
    }
}

impl FromSpecImpl<u8> for Month {
    open spec fn obeys_from_spec() -> bool { true }
    open spec fn from_spec(v: u8) -> Month { Month(v) }
}

impl From<Month> for u8 {
    fn from(v: Month) -> (r: u8) {
        v.0
    }
}

impl FromSpecImpl<Month> for u8 {
    open spec fn obeys_from_spec() -> bool { true }
    open spec fn from_spec(v: Month) -> u8 { v.0 }
}

impl Month {
    /// Century flag (1 = year 2000+).
    pub fn century(&self) -> (r: bool)
        ensures r == (field(self.0, 128, 2) == 1),
    {
        get_field(self.0, 128, 2) == 1
    }

    /// Sets or clears the bit `century`.
    pub fn set_century(&mut self, v: bool)
        ensures final(self).0 == with_field(old(self).0, 128, 2, if v { 1 } else { 0 }),
    {
        self.0 = put_field(self.0, 128, 2, if v { 1 } else { 0 });
    }

    /// Tens place of month (0-1).
    pub fn ten_month(&self) -> (r: u8)
        ensures r == field(self.0, 16, 2),
    {
        get_field(self.0, 16, 2)
    }

    /// Writes the field `ten_month`; the value is reduced to the field's width.
    pub fn set_ten_month(&mut self, v: u8)
        ensures final(self).0 == with_field(old(self).0, 16, 2, v as int),
    {
        self.0 = put_field(self.0, 16, 2, v);
    }

    /// Ones place of month (0-9).
    pub fn month(&self) -> (r: u8)
        ensures r == field(self.0, 1, 16),
    {
        get_field(self.0, 1, 16)
    }

    /// Writes the field `month`; the value is reduced to the field's width.
    pub fn set_month(&mut self, v: u8)
        ensures final(self).0 == with_field(old(self).0, 1, 16, v as int),
    {
        self.0 = put_field(self.0, 1, 16, v);
    }
}

/// Year register (0-99) with BCD encoding.
#[derive(Clone, Copy, Debug, PartialEq, Eq, Structural)]
pub struct Year(pub u8);

impl Default for Year {
    /// A register with every bit clear.
    fn default() -> (r: Year)
        ensures r.0 == 0,
    {
        Year(0)
    }
}

impl From<u8> for Year {
    fn from(v: u8) -> (r: Year) {
        Year(v)
    }
}

impl FromSpecImpl<u8> for Year {
    open spec fn obeys_from_spec() -> bool { true }
    open spec fn from_spec(v: u8) -> Year { Year(v) }
}

impl From<Year> for u8 {
    fn from(v: Year) -> (r: u8) {
        v.0
    }
}

impl FromSpecImpl<Year> for u8 {
    open spec fn obeys_from_spec() -> bool { true }
    open spec fn from_spec(v: Year) -> u8 { v.0 }
}

impl Year {
    /// Tens place of year (0-9).
    pub fn ten_year(&self) -> (r: u8)
        ensures r == field(self.0, 16, 16),
    {
        get_field(self.0, 16, 16)
    }

    /// Writes the field `ten_year`; the value is reduced to the field's width.
    pub fn set_ten_year(&mut self, v: u8)
        ensures final(self).0 == with_field(old(self).0, 16, 16, v as int),
    {
        self.0 = put_field(self.0, 16, 16, v);
    }

    /// Ones place of year (0-9).
    pub fn year(&self) -> (r: u8)
        ensures r == field(self.0, 1, 16),
    {
        get_field(self.0, 1, 16)
    }

    /// Writes the field `year`; the value is reduced to the field's width.
    pub fn set_year(&mut self, v: u8)
        ensures final(self).0 == with_field(old(self).0, 1, 16, v as int),
    {
        self.0 = put_field(self.0, 1, 16, v);
    }
}

/// Control register for device configuration.
#[derive(Clone, Copy, Debug, PartialEq, Eq, Structural)]
pub struct Control(pub u8);

impl Default for Control {
    /// A register with every bit clear.
    fn default() -> (r: Control)
        ensures r.0 == 0,
    {
        Control(0)
    }
}

impl From<u8> for Control {
    fn from(v: u8) -> (r: Control) {
        Control(v)
    }
}

impl FromSpecImpl<u8> for Control {
    open spec fn obeys_from_spec() -> bool { true }
    open spec fn from_spec(v: u8) -> Control { Control(v) }
}

impl From<Control> for u8 {
    fn from(v: Control) -> (r: u8) {
        v.0
    }
}

impl FromSpecImpl<Control> for u8 {
    open spec fn obeys_from_spec() -> bool { true }
    open spec fn from_spec(v: Control) -> u8 { v.0 }
}

impl Control {
    /// Oscillator enable/disable control.
    pub fn oscillator_enable(&self) -> (r: Oscillator)
        ensures r == Oscillator::from_bits_spec(field(self.0, 128, 2) as u8),
    {
        Oscillator::from(get_field(self.0, 128, 2))
    }

    /// Writes the field `oscillator_enable`.
    pub fn set_oscillator_enable(&mut self, v: Oscillator)
        ensures final(self).0 == with_field(old(self).0, 128, 2, v.bits_spec() as int),
    {
        self.0 = put_field(self.0, 128, 2, u8::from(v));
    }

    /// Enable square wave output on battery power.
    pub fn battery_backed_square_wave(&self) -> (r: bool)
        ensures r == (field(self.0, 64, 2) == 1),
    {
        get_field(self.0, 64, 2) == 1
    }

    /// Sets or clears the bit `battery_backed_square_wave`.
    pub fn set_battery_backed_square_wave(&mut self, v: bool)
        ensures final(self).0 == with_field(old(self).0, 64, 2, if v { 1 } else { 0 }),
    {
        self.0 = put_field(self.0, 64, 2, if v { 1 } else { 0 });
    }

    /// Force temperature conversion.
    pub fn convert_temperature(&self) -> (r: bool)
        ensures r == (field(self.0, 32, 2) == 1),
    {
        get_field(self.0, 32, 2) == 1
    }

    /// Sets or clears the bit `convert_temperature`.
    pub fn set_convert_temperature(&mut self, v: bool)
        ensures final(self).0 == with_field(old(self).0, 32, 2, if v { 1 } else { 0 }),
    {
        self.0 = put_field(self.0, 32, 2, if v { 1 } else { 0 });
    }

    /// Square wave output frequency selection.
    pub fn square_wave_frequency(&self) -> (r: SquareWaveFrequency)
        ensures r == SquareWaveFrequency::from_bits_spec(field(self.0, 8, 4) as u8),
    {
        SquareWaveFrequency::from(get_field(self.0, 8, 4))
    }

    /// Writes the field `square_wave_frequency`.
    pub fn set_square_wave_frequency(&mut self, v: SquareWaveFrequency)
        ensures final(self).0 == with_field(old(self).0, 8, 4, v.bits_spec() as int),
    {
        self.0 = put_field(self.0, 8, 4, u8::from(v));
    }

    /// INT/SQW pin function control.
    pub fn interrupt_control(&self) -> (r: InterruptControl)
        ensures r == InterruptControl::from_bits_spec(field(self.0, 4, 2) as u8),
    {
        InterruptControl::from(get_field(self.0, 4, 2))
    }

    /// Writes the field `interrupt_control`.
    pub fn set_interrupt_control(&mut self, v: InterruptControl)
        ensures final(self).0 == with_field(old(self).0, 4, 2, v.bits_spec() as int),
    {
        self.0 = put_field(self.0, 4, 2, u8::from(v));
    }

    /// Enable alarm 2 interrupt.
    pub fn alarm2_interrupt_enable(&self) -> (r: bool)
        ensures r == (field(self.0, 2, 2) == 1),
    {
        get_field(self.0, 2, 2) == 1
    }

    /// Sets or clears the bit `alarm2_interrupt_enable`.
    pub fn set_alarm2_interrupt_enable(&mut self, v: bool)
        ensures final(self).0 == with_field(old(self).0, 2, 2, if v { 1 } else { 0 }),
    {
        self.0 = put_field(self.0, 2, 2, if v { 1 } else { 0 });
    }

    /// Enable alarm 1 interrupt.
    pub fn alarm1_interrupt_enable(&self) -> (r: bool)
        ensures r == (field(self.0, 1, 2) == 1),
    {
        get_field(self.0, 1, 2) == 1
    }

    /// Sets or clears the bit `alarm1_interrupt_enable`.
    pub fn set_alarm1_interrupt_enable(&mut self, v: bool)
        ensures final(self).0 == with_field(old(self).0, 1, 2, if v { 1 } else { 0 }),
    {
        self.0 = put_field(self.0, 1, 2, if v { 1 } else { 0 });
    }
}

/// Status register for device state and flags.
#[derive(Clone, Copy, Debug, PartialEq, Eq, Structural)]
pub struct Status(pub u8);

impl Default for Status {
    /// A register with every bit clear.
    fn default() -> (r: Status)
        ensures r.0 == 0,
    {
        Status(0)
    }
}

impl From<u8> for Status {
    fn from(v: u8) -> (r: Status) {
        Status(v)
    }
}

impl FromSpecImpl<u8> for Status {
    open spec fn obeys_from_spec() -> bool { true }
    open spec fn from_spec(v: u8) -> Status { Status(v) }
}

impl From<Status> for u8 {
    fn from(v: Status) -> (r: u8) {
        v.0
    }
}

impl FromSpecImpl<Status> for u8 {
    open spec fn obeys_from_spec() -> bool { true }
    open spec fn from_spec(v: Status) -> u8 { v.0 }
}

impl Status {
    /// Oscillator stop flag.
    pub fn oscillator_stop_flag(&self) -> (r: bool)
        ensures r == (field(self.0, 128, 2) == 1),
    {
        get_field(self.0, 128, 2) == 1
    }

    /// Sets or clears the bit `oscillator_stop_flag`.
    pub fn set_oscillator_stop_flag(&mut self, v: bool)
        ensures final(self).0 == with_field(old(self).0, 128, 2, if v { 1 } else { 0 }),
    {
        self.0 = put_field(self.0, 128, 2, if v { 1 } else { 0 });
    }

    /// Enable 32kHz output.
    pub fn enable_32khz_output(&self) -> (r: bool)
        ensures r == (field(self.0, 8, 2) == 1),
    {
        get_field(self.0, 8, 2) == 1
    }

    /// Sets or clears the bit `enable_32khz_output`.
    pub fn set_enable_32khz_output(&mut self, v: bool)
        ensures final(self).0 == with_field(old(self).0, 8, 2, if v { 1 } else { 0 }),
    {
        self.0 = put_field(self.0, 8, 2, if v { 1 } else { 0 });
    }

    /// Device busy flag.
    pub fn busy(&self) -> (r: bool)
        ensures r == (field(self.0, 4, 2) == 1),
    {
        get_field(self.0, 4, 2) == 1
    }

    /// Sets or clears the bit `busy`.
    pub fn set_busy(&mut self, v: bool)
        ensures final(self).0 == with_field(old(self).0, 4, 2, if v { 1 } else { 0 }),
    {
        self.0 = put_field(self.0, 4, 2, if v { 1 } else { 0 });
    }

    /// Alarm 2 triggered flag.
    pub fn alarm2_flag(&self) -> (r: bool)
        ensures r == (field(self.0, 2, 2) == 1),
    {
        get_field(self.0, 2, 2) == 1
    }

    /// Sets or clears the bit `alarm2_flag`.
    pub fn set_alarm2_flag(&mut self, v: bool)
        ensures final(self).0 == with_field(old(self).0, 2, 2, if v { 1 } else { 0 }),
    {
        self.0 = put_field(self.0, 2, 2, if v { 1 } else { 0 });
    }

    /// Alarm 1 triggered flag.
    pub fn alarm1_flag(&self) -> (r: bool)
        ensures r == (field(self.0, 1, 2) == 1),
    {
        get_field(self.0, 1, 2) == 1
    }

    /// Sets or clears the bit `alarm1_flag`.
    pub fn set_alarm1_flag(&mut self, v: bool)
        ensures final(self).0 == with_field(old(self).0, 1, 2, if v { 1 } else { 0 }),
    {
        self.0 = put_field(self.0, 1, 2, if v { 1 } else { 0 });
    }
}

/// Aging offset register for oscillator adjustment.
#[derive(Clone, Copy, Debug, PartialEq, Eq, Structural)]
pub struct AgingOffset(pub u8);

impl Default for AgingOffset {
    /// A register with every bit clear.
    fn default() -> (r: AgingOffset)
        ensures r.0 == 0,
    {
        AgingOffset(0)
    }
}

impl From<u8> for AgingOffset {
    fn from(v: u8) -> (r: AgingOffset) {
        AgingOffset(v)
    }
}

impl FromSpecImpl<u8> for AgingOffset {
    open spec fn obeys_from_spec() -> bool { true }
    open spec fn from_spec(v: u8) -> AgingOffset { AgingOffset(v) }
}

impl From<AgingOffset> for u8 {
    fn from(v: AgingOffset) -> (r: u8) {
        v.0
    }
}

impl FromSpecImpl<AgingOffset> for u8 {
    open spec fn obeys_from_spec() -> bool { true }
    open spec fn from_spec(v: AgingOffset) -> u8 { v.0 }
}

impl AgingOffset {
    /// Aging offset value (-128 to +127), the whole byte read as two's complement.
    pub fn aging_offset(&self) -> (r: i8)
        ensures r == (if self.0 < 128 { self.0 as int } else { self.0 as int - 256 }),
    {
        if self.0 < 128 { self.0 as i8 } else { (self.0 as i16 - 256) as i8 }
    }

    /// Stores `v` as its two's complement byte.
    pub fn set_aging_offset(&mut self, v: i8)
        ensures final(self).0 == (if v >= 0 { v as int } else { v as int + 256 }),
    {
        self.0 = if v >= 0 { v as u8 } else { (v as i16 + 256) as u8 };
    }
}

/// Temperature register (integer part).
#[derive(Clone, Copy, Debug, PartialEq, Eq, Structural)]
pub struct Temperature(pub u8);

impl Default for Temperature {
    /// A register with every bit clear.
    fn default() -> (r: Temperature)
        ensures r.0 == 0,
    {
        Temperature(0)
    }
}

impl From<u8> for Temperature {
    fn from(v: u8) -> (r: Temperature) {
        Temperature(v)
    }
}

impl FromSpecImpl<u8> for Temperature {
    open spec fn obeys_from_spec() -> bool { true }
    open spec fn from_spec(v: u8) -> Temperature { Temperature(v) }
}

impl From<Temperature> for u8 {
    fn from(v: Temperature) -> (r: u8) {
        v.0
    }
}

impl FromSpecImpl<Temperature> for u8 {
    open spec fn obeys_from_spec() -> bool { true }
    open spec fn from_spec(v: Temperature) -> u8 { v.0 }
}

impl Temperature {
    /// Temperature value (-128 to +127), the whole byte read as two's complement.
    pub fn temperature(&self) -> (r: i8)
        ensures r == (if self.0 < 128 { self.0 as int } else { self.0 as int - 256 }),
    {
        if self.0 < 128 { self.0 as i8 } else { (self.0 as i16 - 256) as i8 }
    }

    /// Stores `v` as its two's complement byte.
    pub fn set_temperature(&mut self, v: i8)
        ensures final(self).0 == (if v >= 0 { v as int } else { v as int + 256 }),
    {
        self.0 = if v >= 0 { v as u8 } else { (v as i16 + 256) as u8 };
    }
}

/// Temperature fraction register (decimal part).
#[derive(Clone, Copy, Debug, PartialEq, Eq, Structural)]
pub struct TemperatureFraction(pub u8);

impl Default for TemperatureFraction {
    /// A register with every bit clear.
    fn default() -> (r: TemperatureFraction)
        ensures r.0 == 0,
    {
        TemperatureFraction(0)
    }
}

impl From<u8> for TemperatureFraction {
    fn from(v: u8) -> (r: TemperatureFraction) {
        TemperatureFraction(v)
    }
}

impl FromSpecImpl<u8> for TemperatureFraction {
    open spec fn obeys_from_spec() -> bool { true }
    open spec fn from_spec(v: u8) -> TemperatureFraction { TemperatureFraction(v) }
}

impl From<TemperatureFraction> for u8 {
    fn from(v: TemperatureFraction) -> (r: u8) {
        v.0
    }
}

impl FromSpecImpl<TemperatureFraction> for u8 {
    open spec fn obeys_from_spec() -> bool { true }
    open spec fn from_spec(v: TemperatureFraction) -> u8 { v.0 }
}

impl TemperatureFraction {
    /// Temperature fraction in quarter degrees (bits 7-6).
    pub fn temperature_fraction(&self) -> (r: u8)
        ensures r == field(self.0, 64, 4),
    {
        get_field(self.0, 64, 4)
    }

    /// Writes the field `temperature_fraction`; the value is reduced to the field's width.
    pub fn set_temperature_fraction(&mut self, v: u8)
        ensures final(self).0 == with_field(old(self).0, 64, 4, v as int),
    {
        self.0 = put_field(self.0, 64, 4, v);
    }
}

/// Alarm seconds register with mask bit (only used by alarm 1).
#[derive(Clone, Copy, Debug, PartialEq, Eq, Structural)]
pub struct AlarmSeconds(pub u8);

impl Default for AlarmSeconds {
    /// A register with every bit clear.
    fn default() -> (r: AlarmSeconds)
        ensures r.0 == 0,
    {
        AlarmSeconds(0)
    }
}

impl From<u8> for AlarmSeconds {
    fn from(v: u8) -> (r: AlarmSeconds) {
        AlarmSeconds(v)
    }
}

impl FromSpecImpl<u8> for AlarmSeconds {
    open spec fn obeys_from_spec() -> bool { true }
    open spec fn from_spec(v: u8) -> AlarmSeconds { AlarmSeconds(v) }
}

impl From<AlarmSeconds> for u8 {
    fn from(v: AlarmSeconds) -> (r: u8) {
        v.0
    }
}

impl FromSpecImpl<AlarmSeconds> for u8 {
    open spec fn obeys_from_spec() -> bool { true }
    open spec fn from_spec(v: AlarmSeconds) -> u8 { v.0 }
}

impl AlarmSeconds {
    /// Alarm mask bit 1 (A1M1).
    pub fn alarm_mask1(&self) -> (r: bool)
        ensures r == (field(self.0, 128, 2) == 1),
    {
        get_field(self.0, 128, 2) == 1
    }

    /// Sets or clears the bit `alarm_mask1`.
    pub fn set_alarm_mask1(&mut self, v: bool)
        ensures final(self).0 == with_field(old(self).0, 128, 2, if v { 1 } else { 0 }),
    {
        self.0 = put_field(self.0, 128, 2, if v { 1 } else { 0 });
    }

    /// Tens place of seconds (0-5).
    pub fn ten_seconds(&self) -> (r: u8)
        ensures r == field(self.0, 16, 8),
    {
        get_field(self.0, 16, 8)
    }

    /// Writes the field `ten_seconds`; the value is reduced to the field's width.
    pub fn set_ten_seconds(&mut self, v: u8)
        ensures final(self).0 == with_field(old(self).0, 16, 8, v as int),
    {
        self.0 = put_field(self.0, 16, 8, v);
    }

    /// Ones place of seconds (0-9).
    pub fn seconds(&self) -> (r: u8)
        ensures r == field(self.0, 1, 16),
    {
        get_field(self.0, 1, 16)
    }

    /// Writes the field `seconds`; the value is reduced to the field's width.
    pub fn set_seconds(&mut self, v: u8)
        ensures final(self).0 == with_field(old(self).0, 1, 16, v as int),
    {
        self.0 = put_field(self.0, 1, 16, v);
    }
}

/// Alarm minutes register with mask bit (used by both alarms).
#[derive(Clone, Copy, Debug, PartialEq, Eq, Structural)]
pub struct AlarmMinutes(pub u8);

impl Default for AlarmMinutes {
    /// A register with every bit clear.
    fn default() -> (r: AlarmMinutes)
        ensures r.0 == 0,
    {
        AlarmMinutes(0)
    }
}

impl From<u8> for AlarmMinutes {
    fn from(v: u8) -> (r: AlarmMinutes) {
        AlarmMinutes(v)
    }
}

impl FromSpecImpl<u8> for AlarmMinutes {
    open spec fn obeys_from_spec() -> bool { true }
    open spec fn from_spec(v: u8) -> AlarmMinutes { AlarmMinutes(v) }
}

impl From<AlarmMinutes> for u8 {
    fn from(v: AlarmMinutes) -> (r: u8) {
        v.0
    }
}

impl FromSpecImpl<AlarmMinutes> for u8 {
    open spec fn obeys_from_spec() -> bool { true }
    open spec fn from_spec(v: AlarmMinutes) -> u8 { v.0 }
}

impl AlarmMinutes {
    /// Alarm mask bit 2 (A1M2/A2M2).
    pub fn alarm_mask2(&self) -> (r: bool)
        ensures r == (field(self.0, 128, 2) == 1),
    {
        get_field(self.0, 128, 2) == 1
    }

    /// Sets or clears the bit `alarm_mask2`.
    pub fn set_alarm_mask2(&mut self, v: bool)
        ensures final(self).0 == with_field(old(self).0, 128, 2, if v { 1 } else { 0 }),
    {
        self.0 = put_field(self.0, 128, 2, if v { 1 } else { 0 });
    }

    /// Tens place of minutes (0-5).
    pub fn ten_minutes(&self) -> (r: u8)
        ensures r == field(self.0, 16, 8),
    {
        get_field(self.0, 16, 8)
    }

    /// Writes the field `ten_minutes`; the value is reduced to the field's width.
    pub fn set_ten_minutes(&mut self, v: u8)
        ensures final(self).0 == with_field(old(self).0, 16, 8, v as int),
    {
        self.0 = put_field(self.0, 16, 8, v);
    }

    /// Ones place of minutes (0-9).
    pub fn minutes(&self) -> (r: u8)
        ensures r == field(self.0, 1, 16),
    {
        get_field(self.0, 1, 16)
    }

    /// Writes the field `minutes`; the value is reduced to the field's width.
    pub fn set_minutes(&mut self, v: u8)
        ensures final(self).0 == with_field(old(self).0, 1, 16, v as int),
    {
        self.0 = put_field(self.0, 1, 16, v);
    }
}

/// Alarm hours register with mask bit and time format control (used by both alarms).
#[derive(Clone, Copy, Debug, PartialEq, Eq, Structural)]
pub struct AlarmHours(pub u8);

impl Default for AlarmHours {
    /// A register with every bit clear.
    fn default() -> (r: AlarmHours)
        ensures r.0 == 0,
    {
        AlarmHours(0)
    }
}

impl From<u8> for AlarmHours {
    fn from(v: u8) -> (r: AlarmHours) {
        AlarmHours(v)
    }
}

impl FromSpecImpl<u8> for AlarmHours {
    open spec fn obeys_from_spec() -> bool { true }
    open spec fn from_spec(v: u8) -> AlarmHours { AlarmHours(v) }
}

impl From<AlarmHours> for u8 {
    fn from(v: AlarmHours) -> (r: u8) {
        v.0
    }
}

impl FromSpecImpl<AlarmHours> for u8 {
    open spec fn obeys_from_spec() -> bool { true }
    open spec fn from_spec(v: AlarmHours) -> u8 { v.0 }
}

impl AlarmHours {
    /// Alarm mask bit 3 (A1M3/A2M3).
    pub fn alarm_mask3(&self) -> (r: bool)
        ensures r == (field(self.0, 128, 2) == 1),
    {
        get_field(self.0, 128, 2) == 1
    }

    /// Sets or clears the bit `alarm_mask3`.
    pub fn set_alarm_mask3(&mut self, v: bool)
        ensures final(self).0 == with_field(old(self).0, 128, 2, if v { 1 } else { 0 }),
    {
        self.0 = put_field(self.0, 128, 2, if v { 1 } else { 0 });
    }

    /// Time representation format (12/24 hour).
    pub fn time_representation(&self) -> (r: TimeRepresentation)
        ensures r == TimeRepresentation::from_bits_spec(field(self.0, 64, 2) as u8),
    {
        TimeRepresentation::from(get_field(self.0, 64, 2))
    }

    /// Writes the field `time_representation`.
    pub fn set_time_representation(&mut self, v: TimeRepresentation)
        ensures final(self).0 == with_field(old(self).0, 64, 2, v.bits_spec() as int),
    {
        self.0 = put_field(self.0, 64, 2, u8::from(v));
    }

    /// PM flag (12-hour) or 20-hour bit (24-hour).
    pub fn pm_or_twenty_hours(&self) -> (r: u8)
        ensures r == field(self.0, 32, 2),
    {
        get_field(self.0, 32, 2)
    }

    /// Writes the field `pm_or_twenty_hours`; the value is reduced to the field's width.
    pub fn set_pm_or_twenty_hours(&mut self, v: u8)
        ensures final(self).0 == with_field(old(self).0, 32, 2, v as int),
    {
        self.0 = put_field(self.0, 32, 2, v);
    }

    /// Tens place of hours.
    pub fn ten_hours(&self) -> (r: u8)
        ensures r == field(self.0, 16, 2),
    {
        get_field(self.0, 16, 2)
    }

    /// Writes the field `ten_hours`; the value is reduced to the field's width.
    pub fn set_ten_hours(&mut self, v: u8)
        ensures final(self).0 == with_field(old(self).0, 16, 2, v as int),
    {
        self.0 = put_field(self.0, 16, 2, v);
    }

    /// Ones place of hours.
    pub fn hours(&self) -> (r: u8)
        ensures r == field(self.0, 1, 16),
    {
        get_field(self.0, 1, 16)
    }

    /// Writes the field `hours`; the value is reduced to the field's width.
    pub fn set_hours(&mut self, v: u8)
        ensures final(self).0 == with_field(old(self).0, 1, 16, v as int),
    {
        self.0 = put_field(self.0, 1, 16, v);
    }
}

/// Alarm day/date register with mask bit and DY/DT control (used by both alarms).
#[derive(Clone, Copy, Debug, PartialEq, Eq, Structural)]
pub struct AlarmDayDate(pub u8);

impl Default for AlarmDayDate {
    /// A register with every bit clear.
    fn default() -> (r: AlarmDayDate)
        ensures r.0 == 0,
    {
        AlarmDayDate(0)
    }
}

impl From<u8> for AlarmDayDate {
    fn from(v: u8) -> (r: AlarmDayDate) {
        AlarmDayDate(v)
    }
}

impl FromSpecImpl<u8> for AlarmDayDate {
    open spec fn obeys_from_spec() -> bool { true }
    open spec fn from_spec(v: u8) -> AlarmDayDate { AlarmDayDate(v) }
}

impl From<AlarmDayDate> for u8 {
    fn from(v: AlarmDayDate) -> (r: u8) {
        v.0
    }
}

impl FromSpecImpl<AlarmDayDate> for u8 {
    open spec fn obeys_from_spec() -> bool { true }
    open spec fn from_spec(v: AlarmDayDate) -> u8 { v.0 }
}

impl AlarmDayDate {
    /// Alarm mask bit 4 (A1M4/A2M4).
    pub fn alarm_mask4(&self) -> (r: bool)
        ensures r == (field(self.0, 128, 2) == 1),
    {
        get_field(self.0, 128, 2) == 1
    }

    /// Sets or clears the bit `alarm_mask4`.
    pub fn set_alarm_mask4(&mut self, v: bool)
        ensures final(self).0 == with_field(old(self).0, 128, 2, if v { 1 } else { 0 }),
    {
        self.0 = put_field(self.0, 128, 2, if v { 1 } else { 0 });
    }

    /// Day/date select (1 = day of week, 0 = date of month).
    pub fn day_date_select(&self) -> (r: DayDateSelect)
        ensures r == DayDateSelect::from_bits_spec(field(self.0, 64, 2) as u8),
    {
        DayDateSelect::from(get_field(self.0, 64, 2))
    }

    /// Writes the field `day_date_select`.
    pub fn set_day_date_select(&mut self, v: DayDateSelect)
        ensures final(self).0 == with_field(old(self).0, 64, 2, v.bits_spec() as int),
    {
        self.0 = put_field(self.0, 64, 2, u8::from(v));
    }

    /// Tens place of date (0-3) in date mode.
    pub fn ten_date(&self) -> (r: u8)
        ensures r == field(self.0, 16, 4),
    {
        get_field(self.0, 16, 4)
    }

    /// Writes the field `ten_date`; the value is reduced to the field's width.
    pub fn set_ten_date(&mut self, v: u8)
        ensures final(self).0 == with_field(old(self).0, 16, 4, v as int),
    {
        self.0 = put_field(self.0, 16, 4, v);
    }

    /// Day of week (1-7) in day mode, ones place of date (0-9) in date mode.
    pub fn day_or_date(&self) -> (r: u8)
        ensures r == field(self.0, 1, 16),
    {
        get_field(self.0, 1, 16)
    }

    /// Writes the field `day_or_date`; the value is reduced to the field's width.
    pub fn set_day_or_date(&mut self, v: u8)
        ensures final(self).0 == with_field(old(self).0, 1, 16, v as int),
    {
        self.0 = put_field(self.0, 1, 16, v);
    }
}

} // verus!
