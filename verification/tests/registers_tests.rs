//! Tests of the DS3231 register layouts.

use taptime::registers::{
    AgingOffset, AlarmDayDate, AlarmHours, AlarmMinutes, AlarmSeconds, Control, Date, Day, DayDateSelect,
    Hours, InterruptControl, Minutes, Month, Oscillator, Seconds, SquareWaveFrequency, Status, Temperature,
    TemperatureFraction, TimeRepresentation, Year,
};
#[test]
fn test_day_date_select_conversions() {
    // Test DayDateSelect conversions
    assert_eq!(DayDateSelect::from(0), DayDateSelect::Date);
    assert_eq!(DayDateSelect::from(1), DayDateSelect::Day);
    assert_eq!(u8::from(DayDateSelect::Date), 0);
    assert_eq!(u8::from(DayDateSelect::Day), 1);
}

#[test]
fn test_seconds_register_conversions() {
    // Test valid BCD values
    let seconds = Seconds::from(0x59); // 59 seconds
    assert_eq!(seconds.ten_seconds(), 5);
    assert_eq!(seconds.seconds(), 9);
    assert_eq!(u8::from(seconds), 0x59);

    let seconds = Seconds::from(0x00); // 0 seconds
    assert_eq!(seconds.ten_seconds(), 0);
    assert_eq!(seconds.seconds(), 0);
    assert_eq!(u8::from(seconds), 0x00);

    let seconds = Seconds::from(0x30); // 30 seconds
    assert_eq!(seconds.ten_seconds(), 3);
    assert_eq!(seconds.seconds(), 0);
    assert_eq!(u8::from(seconds), 0x30);
}

#[test]
fn test_minutes_register_conversions() {
    // Test valid BCD values
    let minutes = Minutes::from(0x59); // 59 minutes
    assert_eq!(minutes.ten_minutes(), 5);
    assert_eq!(minutes.minutes(), 9);
    assert_eq!(u8::from(minutes), 0x59);

    let minutes = Minutes::from(0x00); // 0 minutes
    assert_eq!(minutes.ten_minutes(), 0);
    assert_eq!(minutes.minutes(), 0);
    assert_eq!(u8::from(minutes), 0x00);

    let minutes = Minutes::from(0x45); // 45 minutes
    assert_eq!(minutes.ten_minutes(), 4);
    assert_eq!(minutes.minutes(), 5);
    assert_eq!(u8::from(minutes), 0x45);
}

#[test]
fn test_hours_register_conversions() {
    // Test 24-hour mode
    let hours = Hours::from(0x23); // 23 hours (11 PM in 24-hour)
    assert_eq!(
        hours.time_representation(),
        TimeRepresentation::TwentyFourHour
    );
    assert_eq!(hours.pm_or_twenty_hours(), 1); // 20-hour bit set
    assert_eq!(hours.ten_hours(), 0);
    assert_eq!(hours.hours(), 3);
    assert_eq!(u8::from(hours), 0x23);

    // Test 12-hour mode PM
    let hours = Hours::from(0x72); // 12 PM in 12-hour mode
    assert_eq!(hours.time_representation(), TimeRepresentation::TwelveHour);
    assert_eq!(hours.pm_or_twenty_hours(), 1); // PM bit set
    assert_eq!(hours.ten_hours(), 1);
    assert_eq!(hours.hours(), 2);
    assert_eq!(u8::from(hours), 0x72);

    // Test 12-hour mode AM
    let hours = Hours::from(0x48); // 8 AM in 12-hour mode
    assert_eq!(hours.time_representation(), TimeRepresentation::TwelveHour);
    assert_eq!(hours.pm_or_twenty_hours(), 0); // AM bit clear
    assert_eq!(hours.ten_hours(), 0);
    assert_eq!(hours.hours(), 8);
    assert_eq!(u8::from(hours), 0x48);
}

#[test]
fn test_day_register_conversions() {
    // Test valid day values (1-7)
    let day = Day::from(0x01); // Sunday
    assert_eq!(day.day(), 1);
    assert_eq!(u8::from(day), 0x01);

    let day = Day::from(0x07); // Saturday
    assert_eq!(day.day(), 7);
    assert_eq!(u8::from(day), 0x07);

    let day = Day::from(0x04); // Wednesday
    assert_eq!(day.day(), 4);
    assert_eq!(u8::from(day), 0x04);
}

#[test]
fn test_date_register_conversions() {
    // Test valid BCD date values
    let date = Date::from(0x31); // 31st
    assert_eq!(date.ten_date(), 3);
    assert_eq!(date.date(), 1);
    assert_eq!(u8::from(date), 0x31);

    let date = Date::from(0x01); // 1st
    assert_eq!(date.ten_date(), 0);
    assert_eq!(date.date(), 1);
    assert_eq!(u8::from(date), 0x01);

    let date = Date::from(0x15); // 15th
    assert_eq!(date.ten_date(), 1);
    assert_eq!(date.date(), 5);
    assert_eq!(u8::from(date), 0x15);
}

#[test]
fn test_month_register_conversions() {
    // Test month without century bit
    let month = Month::from(0x12); // December
    assert_eq!(month.century(), false);
    assert_eq!(month.ten_month(), 1);
    assert_eq!(month.month(), 2);
    assert_eq!(u8::from(month), 0x12);

    // Test month with century bit
    let month = Month::from(0x81); // January with century bit
    assert_eq!(month.century(), true);
    assert_eq!(month.ten_month(), 0);
    assert_eq!(month.month(), 1);
    assert_eq!(u8::from(month), 0x81);

    let month = Month::from(0x06); // June
    assert_eq!(month.century(), false);
    assert_eq!(month.ten_month(), 0);
    assert_eq!(month.month(), 6);
    assert_eq!(u8::from(month), 0x06);
}

#[test]
fn test_year_register_conversions() {
    // Test valid BCD year values
    let year = Year::from(0x99); // 99
    assert_eq!(year.ten_year(), 9);
    assert_eq!(year.year(), 9);
    assert_eq!(u8::from(year), 0x99);

    let year = Year::from(0x00); // 00
    assert_eq!(year.ten_year(), 0);
    assert_eq!(year.year(), 0);
    assert_eq!(u8::from(year), 0x00);

    let year = Year::from(0x24); // 24
    assert_eq!(year.ten_year(), 2);
    assert_eq!(year.year(), 4);
    assert_eq!(u8::from(year), 0x24);
}

#[test]
fn test_control_register_conversions() {
    // Test control register with all bits set
    let control = Control::from(0xFF);
    assert_eq!(control.oscillator_enable(), Oscillator::Disabled);
    assert_eq!(control.battery_backed_square_wave(), true);
    assert_eq!(control.convert_temperature(), true);
    // 0xFF has bits 4:3 = 11 = 0b11 = 3, which maps to Hz8192
    assert_eq!(control.square_wave_frequency(), SquareWaveFrequency::Hz8192);
    assert_eq!(control.interrupt_control(), InterruptControl::Interrupt);
    assert_eq!(control.alarm2_interrupt_enable(), true);
    assert_eq!(control.alarm1_interrupt_enable(), true);
    assert_eq!(u8::from(control), 0xFF);

    // Test control register with no bits set
    let control = Control::from(0x00);
    assert_eq!(control.oscillator_enable(), Oscillator::Enabled);
    assert_eq!(control.battery_backed_square_wave(), false);
    assert_eq!(control.convert_temperature(), false);
    assert_eq!(control.square_wave_frequency(), SquareWaveFrequency::Hz1);
    assert_eq!(control.interrupt_control(), InterruptControl::SquareWave);
    assert_eq!(control.alarm2_interrupt_enable(), false);
    assert_eq!(control.alarm1_interrupt_enable(), false);
    assert_eq!(u8::from(control), 0x00);

    // Test specific bit combinations
    let control = Control::from(0x1C); // 0x1C = 00011100: bits 4:3 = 11 = Hz8192, bit 2 = 1 = Interrupt
    assert_eq!(control.oscillator_enable(), Oscillator::Enabled);
    assert_eq!(control.battery_backed_square_wave(), false);
    assert_eq!(control.convert_temperature(), false);
    assert_eq!(control.square_wave_frequency(), SquareWaveFrequency::Hz8192); // bits 4:3 = 11 = Hz8192
    assert_eq!(control.interrupt_control(), InterruptControl::Interrupt);
    assert_eq!(control.alarm2_interrupt_enable(), false);
    assert_eq!(control.alarm1_interrupt_enable(), false);
    assert_eq!(u8::from(control), 0x1C);
}

#[test]
fn test_status_register_conversions() {
    // Test status register with all flags set
    let status = Status::from(0x8F);
    assert_eq!(status.oscillator_stop_flag(), true);
    assert_eq!(status.enable_32khz_output(), true);
    assert_eq!(status.busy(), true);
    assert_eq!(status.alarm2_flag(), true);
    assert_eq!(status.alarm1_flag(), true);
    assert_eq!(u8::from(status), 0x8F);

    // Test status register with no flags set
    let status = Status::from(0x00);
    assert_eq!(status.oscillator_stop_flag(), false);
    assert_eq!(status.enable_32khz_output(), false);
    assert_eq!(status.busy(), false);
    assert_eq!(status.alarm2_flag(), false);
    assert_eq!(status.alarm1_flag(), false);
    assert_eq!(u8::from(status), 0x00);

    // Test specific flag combinations
    let status = Status::from(0x88); // OSF and EN32kHz set
    assert_eq!(status.oscillator_stop_flag(), true);
    assert_eq!(status.enable_32khz_output(), true);
    assert_eq!(status.busy(), false);
    assert_eq!(status.alarm2_flag(), false);
    assert_eq!(status.alarm1_flag(), false);
    assert_eq!(u8::from(status), 0x88);
}

#[test]
fn test_aging_offset_register_conversions() {
    // Test positive aging offset
    let aging_offset = AgingOffset::from(0x05);
    assert_eq!(aging_offset.aging_offset(), 5);
    assert_eq!(u8::from(aging_offset), 0x05);

    // Test negative aging offset (two's complement)
    let aging_offset = AgingOffset::from(0xF6); // -10 in two's complement
    assert_eq!(aging_offset.aging_offset(), -10);
    assert_eq!(u8::from(aging_offset), 0xF6);

    // Test zero aging offset
    let aging_offset = AgingOffset::from(0x00);
    assert_eq!(aging_offset.aging_offset(), 0);
    assert_eq!(u8::from(aging_offset), 0x00);

    // Test maximum positive value
    let aging_offset = AgingOffset::from(0x7F); // +127
    assert_eq!(aging_offset.aging_offset(), 127);
    assert_eq!(u8::from(aging_offset), 0x7F);

    // Test maximum negative value
    let aging_offset = AgingOffset::from(0x80); // -128
    assert_eq!(aging_offset.aging_offset(), -128);
    assert_eq!(u8::from(aging_offset), 0x80);
}

#[test]
fn test_temperature_register_conversions() {
    // Test positive temperature
    let temperature = Temperature::from(0x19); // +25°C
    assert_eq!(temperature.temperature(), 25);
    assert_eq!(u8::from(temperature), 0x19);

    // Test negative temperature (two's complement)
    let temperature = Temperature::from(0xF6); // -10°C
    assert_eq!(temperature.temperature(), -10);
    assert_eq!(u8::from(temperature), 0xF6);

    // Test zero temperature
    let temperature = Temperature::from(0x00);
    assert_eq!(temperature.temperature(), 0);
    assert_eq!(u8::from(temperature), 0x00);

    // Test maximum positive temperature
    let temperature = Temperature::from(0x7F); // +127°C
    assert_eq!(temperature.temperature(), 127);
    assert_eq!(u8::from(temperature), 0x7F);

    // Test maximum negative temperature
    let temperature = Temperature::from(0x80); // -128°C
    assert_eq!(temperature.temperature(), -128);
    assert_eq!(u8::from(temperature), 0x80);
}

#[test]
fn test_temperature_fraction_register_conversions() {
    // Test different fraction values
    let temp_frac = TemperatureFraction::from(0x00); // 0.00°C (bits 7-6 are 00)
    assert_eq!(temp_frac.temperature_fraction(), 0b00); // Getter returns the 2-bit value
    assert_eq!(u8::from(temp_frac), 0x00);

    let temp_frac = TemperatureFraction::from(0x40); // 0.25°C (bits 7-6 are 01)
    assert_eq!(temp_frac.temperature_fraction(), 0b01); // Getter returns the 2-bit value
    assert_eq!(u8::from(temp_frac), 0x40);

    let temp_frac = TemperatureFraction::from(0x80); // 0.50°C (bits 7-6 are 10)
    assert_eq!(temp_frac.temperature_fraction(), 0b10); // Getter returns the 2-bit value
    assert_eq!(u8::from(temp_frac), 0x80);

    let temp_frac = TemperatureFraction::from(0xC0); // 0.75°C (bits 7-6 are 11)
    assert_eq!(temp_frac.temperature_fraction(), 0b11); // Getter returns the 2-bit value
    assert_eq!(u8::from(temp_frac), 0xC0);

    // Test arbitrary value to ensure only relevant bits are used by getter
    // and other bits are ignored by getter but preserved by From<u8>/Into<u8>
    let temp_frac_arbitrary = TemperatureFraction::from(0x55); // 0b01010101, bits 7-6 are 01
    assert_eq!(temp_frac_arbitrary.temperature_fraction(), 0b01); // Should be 1 (0.25°C)
    assert_eq!(u8::from(temp_frac_arbitrary), 0x55); // Raw byte preserved

    // Test setting the fraction and converting back to u8
    let mut temp_frac_setter = TemperatureFraction::default(); // Starts at 0x00
    temp_frac_setter.set_temperature_fraction(0b10); // Set fraction to 0.50°C (binary 10)
                                                     // The setter places 0b10 into bits 7-6. So the raw byte should be 0b10000000 = 0x80
    assert_eq!(u8::from(temp_frac_setter), 0x80);
    assert_eq!(temp_frac_setter.temperature_fraction(), 0b10);

    temp_frac_setter.set_temperature_fraction(0b01); // Set fraction to 0.25°C (binary 01)
                                                     // Raw byte should be 0b01000000 = 0x40
    assert_eq!(u8::from(temp_frac_setter), 0x40);
    assert_eq!(temp_frac_setter.temperature_fraction(), 0b01);
}

#[test]
fn test_alarm_seconds_register_conversions() {
    // Test with mask bit set
    let alarm_seconds = AlarmSeconds::from(0x80); // Mask bit set, 0 seconds
    assert_eq!(alarm_seconds.alarm_mask1(), true);
    assert_eq!(alarm_seconds.ten_seconds(), 0);
    assert_eq!(alarm_seconds.seconds(), 0);
    assert_eq!(u8::from(alarm_seconds), 0x80);

    // Test with mask bit clear and valid BCD seconds
    let alarm_seconds = AlarmSeconds::from(0x35); // No mask, 35 seconds
    assert_eq!(alarm_seconds.alarm_mask1(), false);
    assert_eq!(alarm_seconds.ten_seconds(), 3);
    assert_eq!(alarm_seconds.seconds(), 5);
    assert_eq!(u8::from(alarm_seconds), 0x35);

    // Test with mask bit set and BCD seconds
    let alarm_seconds = AlarmSeconds::from(0xB9); // Mask bit set, 39 seconds
    assert_eq!(alarm_seconds.alarm_mask1(), true);
    assert_eq!(alarm_seconds.ten_seconds(), 3); // bits 6:4 = 011 = 3
    assert_eq!(alarm_seconds.seconds(), 9); // bits 3:0 = 1001 = 9
    assert_eq!(u8::from(alarm_seconds), 0xB9);
}

#[test]
fn test_alarm_minutes_register_conversions() {
    // Test with mask bit set
    let alarm_minutes = AlarmMinutes::from(0x80); // Mask bit set, 0 minutes
    assert_eq!(alarm_minutes.alarm_mask2(), true);
    assert_eq!(alarm_minutes.ten_minutes(), 0);
    assert_eq!(alarm_minutes.minutes(), 0);
    assert_eq!(u8::from(alarm_minutes), 0x80);

    // Test with mask bit clear and valid BCD minutes
    let alarm_minutes = AlarmMinutes::from(0x42); // No mask, 42 minutes
    assert_eq!(alarm_minutes.alarm_mask2(), false);
    assert_eq!(alarm_minutes.ten_minutes(), 4);
    assert_eq!(alarm_minutes.minutes(), 2);
    assert_eq!(u8::from(alarm_minutes), 0x42);

    // Test with mask bit set and BCD minutes
    let alarm_minutes = AlarmMinutes::from(0xD7); // Mask bit set, 57 minutes
    assert_eq!(alarm_minutes.alarm_mask2(), true);
    assert_eq!(alarm_minutes.ten_minutes(), 5);
    assert_eq!(alarm_minutes.minutes(), 7);
    assert_eq!(u8::from(alarm_minutes), 0xD7);
}

#[test]
fn test_alarm_hours_register_conversions() {
    // Test 24-hour mode with mask bit
    let alarm_hours = AlarmHours::from(0x95); // Mask bit set, 24-hour, 15 hours
    assert_eq!(alarm_hours.alarm_mask3(), true);
    assert_eq!(
        alarm_hours.time_representation(),
        TimeRepresentation::TwentyFourHour
    );
    assert_eq!(alarm_hours.pm_or_twenty_hours(), 0);
    assert_eq!(alarm_hours.ten_hours(), 1);
    assert_eq!(alarm_hours.hours(), 5);
    assert_eq!(u8::from(alarm_hours), 0x95);

    // Test 12-hour mode PM with mask bit clear
    let alarm_hours = AlarmHours::from(0x72); // No mask, 12-hour PM, 12 hours
    assert_eq!(alarm_hours.alarm_mask3(), false);
    assert_eq!(
        alarm_hours.time_representation(),
        TimeRepresentation::TwelveHour
    );
    assert_eq!(alarm_hours.pm_or_twenty_hours(), 1); // PM bit
    assert_eq!(alarm_hours.ten_hours(), 1);
    assert_eq!(alarm_hours.hours(), 2);
    assert_eq!(u8::from(alarm_hours), 0x72);

    // Test 12-hour mode AM with mask bit set
    let alarm_hours = AlarmHours::from(0xC8); // Mask bit set, 12-hour AM, 8 hours
    assert_eq!(alarm_hours.alarm_mask3(), true);
    assert_eq!(
        alarm_hours.time_representation(),
        TimeRepresentation::TwelveHour
    );
    assert_eq!(alarm_hours.pm_or_twenty_hours(), 0); // AM bit
    assert_eq!(alarm_hours.ten_hours(), 0);
    assert_eq!(alarm_hours.hours(), 8);
    assert_eq!(u8::from(alarm_hours), 0xC8);
}

#[test]
fn test_alarm_day_date_register_conversions() {
    // Test day mode with mask bit set
    let alarm_day_date = AlarmDayDate::from(0xC3); // Mask bit set, day mode, day 3
    assert_eq!(alarm_day_date.alarm_mask4(), true);
    assert_eq!(alarm_day_date.day_date_select(), DayDateSelect::Day);
    assert_eq!(alarm_day_date.ten_date(), 0); // Unused in day mode
    assert_eq!(alarm_day_date.day_or_date(), 3);
    assert_eq!(u8::from(alarm_day_date), 0xC3);

    // Test date mode with mask bit clear
    let alarm_day_date = AlarmDayDate::from(0x15); // No mask, date mode, date 15
    assert_eq!(alarm_day_date.alarm_mask4(), false);
    assert_eq!(alarm_day_date.day_date_select(), DayDateSelect::Date);
    assert_eq!(alarm_day_date.ten_date(), 1);
    assert_eq!(alarm_day_date.day_or_date(), 5);
    assert_eq!(u8::from(alarm_day_date), 0x15);

    // Test day mode with mask bit clear
    let alarm_day_date = AlarmDayDate::from(0x47); // No mask, day mode, day 7
    assert_eq!(alarm_day_date.alarm_mask4(), false);
    assert_eq!(alarm_day_date.day_date_select(), DayDateSelect::Day);
    assert_eq!(alarm_day_date.ten_date(), 0); // Unused in day mode
    assert_eq!(alarm_day_date.day_or_date(), 7);
    assert_eq!(u8::from(alarm_day_date), 0x47);

    // Test date mode with mask bit set
    let alarm_day_date = AlarmDayDate::from(0xA9); // Mask bit set, date mode, date 29
    assert_eq!(alarm_day_date.alarm_mask4(), true);
    assert_eq!(alarm_day_date.day_date_select(), DayDateSelect::Date);
    assert_eq!(alarm_day_date.ten_date(), 2);
    assert_eq!(alarm_day_date.day_or_date(), 9);
    assert_eq!(u8::from(alarm_day_date), 0xA9);
}

#[test]
fn test_register_roundtrip_conversions() {
    // Test that all register types can roundtrip through u8 conversion
    let test_values = [
        0x00, 0x55, 0xAA, 0xFF, 0x12, 0x34, 0x56, 0x78, 0x9A, 0xBC, 0xDE,
    ];

    for &value in &test_values {
        // Test all register types
        assert_eq!(u8::from(Seconds::from(value)), value);
        assert_eq!(u8::from(Minutes::from(value)), value);
        assert_eq!(u8::from(Hours::from(value)), value);
        assert_eq!(u8::from(Day::from(value)), value);
        assert_eq!(u8::from(Date::from(value)), value);
        assert_eq!(u8::from(Month::from(value)), value);
        assert_eq!(u8::from(Year::from(value)), value);
        assert_eq!(u8::from(Control::from(value)), value);
        assert_eq!(u8::from(Status::from(value)), value);
        assert_eq!(u8::from(AgingOffset::from(value)), value);
        assert_eq!(u8::from(Temperature::from(value)), value);
        assert_eq!(u8::from(TemperatureFraction::from(value)), value);
        assert_eq!(u8::from(AlarmSeconds::from(value)), value);
        assert_eq!(u8::from(AlarmMinutes::from(value)), value);
        assert_eq!(u8::from(AlarmHours::from(value)), value);
        assert_eq!(u8::from(AlarmDayDate::from(value)), value);
    }
}

#[test]
fn test_register_bitfield_operations() {
    // Test Seconds register
    let mut seconds = Seconds::default();
    seconds.set_seconds(5);
    seconds.set_ten_seconds(3);
    assert_eq!(seconds.seconds(), 5);
    assert_eq!(seconds.ten_seconds(), 3);

    // Test Minutes register
    let mut minutes = Minutes::default();
    minutes.set_minutes(8);
    minutes.set_ten_minutes(4);
    assert_eq!(minutes.minutes(), 8);
    assert_eq!(minutes.ten_minutes(), 4);

    // Test Hours register
    let mut hours = Hours::default();
    hours.set_time_representation(TimeRepresentation::TwelveHour);
    hours.set_pm_or_twenty_hours(1);
    hours.set_ten_hours(1);
    hours.set_hours(2);
    assert_eq!(hours.time_representation(), TimeRepresentation::TwelveHour);
    assert_eq!(hours.pm_or_twenty_hours(), 1);
    assert_eq!(hours.ten_hours(), 1);
    assert_eq!(hours.hours(), 2);

    // Test Day register
    let mut day = Day::default();
    day.set_day(3);
    assert_eq!(day.day(), 3);

    // Test Date register
    let mut date = Date::default();
    date.set_date(5);
    date.set_ten_date(2);
    assert_eq!(date.date(), 5);
    assert_eq!(date.ten_date(), 2);

    // Test Month register
    let mut month = Month::default();
    month.set_month(2);
    month.set_ten_month(1);
    month.set_century(true);
    assert_eq!(month.month(), 2);
    assert_eq!(month.ten_month(), 1);
    assert!(month.century());

    // Test Year register
    let mut year = Year::default();
    year.set_year(4);
    year.set_ten_year(2);
    assert_eq!(year.year(), 4);
    assert_eq!(year.ten_year(), 2);

    // Test Control register
    let mut control = Control::default();
    control.set_oscillator_enable(Oscillator::Disabled);
    control.set_battery_backed_square_wave(true);
    control.set_convert_temperature(true);
    control.set_square_wave_frequency(SquareWaveFrequency::Hz4096);
    control.set_interrupt_control(InterruptControl::Interrupt);
    control.set_alarm2_interrupt_enable(true);
    control.set_alarm1_interrupt_enable(true);

    assert_eq!(control.oscillator_enable(), Oscillator::Disabled);
    assert!(control.battery_backed_square_wave());
    assert!(control.convert_temperature());
    assert_eq!(control.square_wave_frequency(), SquareWaveFrequency::Hz4096);
    assert_eq!(control.interrupt_control(), InterruptControl::Interrupt);
    assert!(control.alarm2_interrupt_enable());
    assert!(control.alarm1_interrupt_enable());

    // Test Status register
    let mut status = Status::default();
    status.set_oscillator_stop_flag(true);
    status.set_enable_32khz_output(true);
    status.set_busy(true);
    status.set_alarm2_flag(true);
    status.set_alarm1_flag(true);

    assert!(status.oscillator_stop_flag());
    assert!(status.enable_32khz_output());
    assert!(status.busy());
    assert!(status.alarm2_flag());
    assert!(status.alarm1_flag());

    // Test AgingOffset register
    let mut aging_offset = AgingOffset::default();
    aging_offset.set_aging_offset(-10);
    assert_eq!(aging_offset.aging_offset(), -10);

    // Test Temperature register
    let mut temperature = Temperature::default();
    temperature.set_temperature(25);
    assert_eq!(temperature.temperature(), 25);

    // Test TemperatureFraction register
    let mut temp_frac = TemperatureFraction::default(); // default is 0x00
                                                        // The setter `set_temperature_fraction` expects the 2-bit value (0, 1, 2, or 3).
                                                        // To set 0.25°C (which is bits 7-6 = 01), we pass 0b01 to the setter.
    temp_frac.set_temperature_fraction(0b01);
    // The getter `temperature_fraction()` should then return this 2-bit value (0b01).
    assert_eq!(temp_frac.temperature_fraction(), 0b01);
    // The raw u8 value of temp_frac should be 0b01000000 = 0x40, because set_temperature_fraction(0b01)
    // places 01 into bits 7-6.
    assert_eq!(u8::from(temp_frac), 0x40);

    // Test setting another value, e.g., 0.75°C (bits 7-6 = 11)
    temp_frac.set_temperature_fraction(0b11);
    assert_eq!(temp_frac.temperature_fraction(), 0b11); // Getter returns 3
    assert_eq!(u8::from(temp_frac), 0xC0); // Raw u8 should be 0b11000000
}

#[test]
fn test_alarm_register_bitfield_operations() {
    // Test AlarmSeconds register
    let mut alarm_seconds = AlarmSeconds::default();
    alarm_seconds.set_alarm_mask1(true);
    alarm_seconds.set_ten_seconds(3);
    alarm_seconds.set_seconds(5);
    assert!(alarm_seconds.alarm_mask1());
    assert_eq!(alarm_seconds.ten_seconds(), 3);
    assert_eq!(alarm_seconds.seconds(), 5);

    // Test AlarmMinutes register
    let mut alarm_minutes = AlarmMinutes::default();
    alarm_minutes.set_alarm_mask2(true);
    alarm_minutes.set_ten_minutes(4);
    alarm_minutes.set_minutes(8);
    assert!(alarm_minutes.alarm_mask2());
    assert_eq!(alarm_minutes.ten_minutes(), 4);
    assert_eq!(alarm_minutes.minutes(), 8);

    // Test AlarmHours register
    let mut alarm_hours = AlarmHours::default();
    alarm_hours.set_alarm_mask3(true);
    alarm_hours.set_time_representation(TimeRepresentation::TwelveHour);
    alarm_hours.set_pm_or_twenty_hours(1);
    alarm_hours.set_ten_hours(1);
    alarm_hours.set_hours(2);
    assert!(alarm_hours.alarm_mask3());
    assert_eq!(
        alarm_hours.time_representation(),
        TimeRepresentation::TwelveHour
    );
    assert_eq!(alarm_hours.pm_or_twenty_hours(), 1);
    assert_eq!(alarm_hours.ten_hours(), 1);
    assert_eq!(alarm_hours.hours(), 2);

    // Test AlarmDayDate register
    let mut alarm_day_date = AlarmDayDate::default();
    alarm_day_date.set_alarm_mask4(true);
    alarm_day_date.set_day_date_select(DayDateSelect::Day);
    alarm_day_date.set_ten_date(2);
    alarm_day_date.set_day_or_date(5);
    assert!(alarm_day_date.alarm_mask4());
    assert_eq!(alarm_day_date.day_date_select(), DayDateSelect::Day);
    assert_eq!(alarm_day_date.ten_date(), 2);
    assert_eq!(alarm_day_date.day_or_date(), 5);
}
