//! Tests of the calendar, day flags, stored rows, the card reader buffer and the
//! Wi-Fi module dialogue.

use taptime::date::{Date, Weekday};
use taptime::day_flags::DayFlags;
use taptime::duration::Duration;
use taptime::error::Error;
use taptime::event::Event;
use taptime::local_time::LocalTime;
use taptime::records::{duration_from_proto, event_from_row, SpanError};
use taptime::rfid::Uid as CardUid;
use taptime::user::{row_to_core_user, RowError, UserRow, UserSettings};
use taptime::wifi::{
    connect_command, connect_succeeded, extract_http_body, find_from, join_command, join_reply, post_request,
    send_command, JoinReply,
};

#[test]
fn dates_and_weekdays() {
    let d = Date::from_ymd(2024, 1, 1).unwrap();
    assert_eq!(d.weekday(), Weekday::Mon);
    assert_eq!(Date::from_ymd(2024, 1, 6).unwrap().weekday(), Weekday::Sat);
    assert_eq!(Date::from_ymd(1970, 1, 1).unwrap().weekday(), Weekday::Thu);
    assert_eq!(Date::from_ymd(1, 1, 1).unwrap().day_number, 1);
    assert_eq!(Date::from_ymd(1970, 1, 1).unwrap().day_number, 719_163);
    assert!(Date::from_ymd(2023, 2, 29).is_none());
    assert!(Date::from_ymd(2024, 13, 1).is_none());
    assert!(Date::from_ymd(2024, 1, 2).unwrap() > d);
    assert_eq!(Date::from_day_number(0).weekday(), Weekday::Sun);
}

#[test]
fn calendar_days_in_and_out_of_range() {
    assert_eq!(Date::from_ymd(2024, 2, 29).unwrap().day_number + 1, Date::from_ymd(2024, 3, 1).unwrap().day_number);
    assert!(Date::from_ymd(2000, 2, 29).is_some());
    assert!(Date::from_ymd(1900, 2, 29).is_none());
    assert!(Date::from_ymd(2024, 4, 31).is_none());
    assert!(Date::from_ymd(2024, 1, 0).is_none());
    assert_eq!(Date::from_ymd(0, 12, 31).unwrap().day_number, 0);
    assert_eq!(Date::from_ymd(-1, 1, 1).unwrap().day_number, -730);
    assert!(Date::from_ymd(262142, 12, 31).is_some());
    assert!(Date::from_ymd(262143, 1, 1).is_none());
    assert!(Date::from_ymd(-262143, 1, 1).is_some());
    assert!(Date::from_ymd(-262144, 12, 31).is_none());
    assert_eq!(Date::from_epoch_days(0).day_number, 719_163);
    assert_eq!(Date::from_epoch_days(19_723), Date::from_ymd(2024, 1, 1).unwrap());
    assert_eq!(Date::from_epoch_days(i32::MAX).day_number, 719_163);
    assert_eq!(Date::from_epoch_days(-200_000_000).day_number, 719_163);
}

#[test]
fn new_days_take_the_user_calendar() {
    let mut settings = UserSettings::default();
    settings.remote_days = vec![Weekday::Sat, Weekday::Wed];
    assert_eq!(settings.required_work_hours, Duration::hours(8));
    assert_eq!(settings.lunch_break_duration, Duration::minutes(30));
    let user = taptime::user::User {
        id: 7,
        name: "Ann".into(),
        email: "ann@example.com".into(),
        organization: None,
        time_zone: "UTC".into(),
        created_at: 0,
        last_seen: None,
        rfid_uid: None,
        settings,
    };
    let saturday = user.new_day(Date::from_ymd(2024, 1, 6).unwrap());
    assert!(saturday.is_weekend() && saturday.is_remote() && !saturday.is_day_off());
    assert_eq!(saturday.flags.bits(), 5);
    let wednesday = user.new_day(Date::from_ymd(2024, 1, 3).unwrap());
    assert!(!wednesday.is_weekend() && wednesday.is_remote());
    let monday = user.new_day(Date::from_ymd(2024, 1, 1).unwrap());
    assert_eq!(monday.flags.bits(), 0);
    assert!(monday.events.is_empty());
}

#[test]
fn day_flag_sets() {
    let mut flags = DayFlags::empty();
    flags.insert(DayFlags::weekend());
    flags.insert(DayFlags::remote());
    assert!(flags.contains(DayFlags::weekend()));
    assert!(flags.intersects(DayFlags::remote()));
    assert!(!flags.contains(DayFlags::day_off()));
    flags.toggle(DayFlags::day_off());
    assert_eq!(flags.bits(), 7);
    flags.remove(DayFlags::weekend());
    assert_eq!(flags.bits(), 6);
    assert_eq!(DayFlags::from_bits_truncate(0xFF).bits(), 7);
    assert_eq!(u32::from(DayFlags::from(3u32)), 3);
}

#[test]
fn stored_rows() {
    assert_eq!(event_from_row(0, 9, 30, 0).unwrap(), Event::CheckIn(LocalTime::new(9, 30, 0).unwrap()));
    assert_eq!(event_from_row(1, 17, 0, 5).unwrap(), Event::CheckOut(LocalTime::new(17, 0, 5).unwrap()));
    assert!(matches!(event_from_row(0, 24, 0, 0), Err(Error::InvalidTime(24, 0, 0))));
    assert!(matches!(event_from_row(0, -1, 0, 0), Err(Error::InvalidTime(u32::MAX, 0, 0))));

    assert_eq!(duration_from_proto(3600, 500).unwrap().as_nanos(), 3_600_000_000_500);
    assert_eq!(duration_from_proto(1, -1), Err(SpanError::InvalidNanos));
    assert_eq!(duration_from_proto(1, 1_000_000_000), Err(SpanError::InvalidNanos));
    assert_eq!(duration_from_proto(0, 0), Err(SpanError::NotPositive));
    assert_eq!(duration_from_proto(-2, 999_999_999), Err(SpanError::NotPositive));
}

fn row(time_zone: &str, uid: Option<Vec<u8>>) -> UserRow {
    UserRow {
        id: 42,
        name: "Ann".into(),
        email: "ann@example.com".into(),
        organization: Some("Acme".into()),
        time_zone: time_zone.into(),
        created_at: 1_700_000_000,
        last_seen: None,
        rfid_uid: uid,
        required_work_hours_secs: 7 * 3600,
        lunch_break_duration_secs: 1800,
        weekends: vec![6, 7],
        remote_days: vec![3],
    }
}

#[test]
fn stored_users() {
    let user = row_to_core_user(row("Europe/Paris", Some(vec![1, 2, 3, 4]))).unwrap();
    assert_eq!(user.id, 42);
    assert_eq!(user.settings.required_work_hours, Duration::hours(7));
    assert_eq!(user.settings.weekends, vec![Weekday::Sat, Weekday::Sun]);
    assert_eq!(user.settings.remote_days, vec![Weekday::Wed]);
    assert_eq!(user.rfid_uid.unwrap().as_hex(), "01020304");
    assert_eq!(row_to_core_user(row("Nowhere/Land", None)).unwrap_err(), RowError::InvalidTimeZone);
    assert_eq!(row_to_core_user(row("UTC", Some(vec![1, 2]))).unwrap_err(), RowError::InvalidRfidUid);
}

#[test]
fn card_reader_buffer() {
    let uid = CardUid::from_card_bytes(&[0xDE, 0xAD, 0xBE, 0xEF]);
    assert_eq!(uid.len, 4);
    assert_eq!(uid.as_slice(), &[0xDE, 0xAD, 0xBE, 0xEF]);
    assert_eq!(uid.bytes[4..], [0u8; 6]);
    let long = CardUid::from_card_bytes(&[1, 2, 3, 4, 5, 6, 7, 8, 9, 10, 11, 12]);
    assert_eq!(long.len, 10);
    assert_eq!(long.as_slice(), &[1, 2, 3, 4, 5, 6, 7, 8, 9, 10]);
}

#[test]
fn at_commands() {
    assert_eq!(join_command("my \"net\"", "a,b\\c"), b"AT+CWJAP=\"my \\\"net\\\"\",\"a\\,b\\\\c\"\r\n".to_vec());
    assert_eq!(connect_command("example.com", 8080), b"AT+CIPSTART=\"TCP\",\"example.com\",8080\r\n".to_vec());
    assert_eq!(connect_command("h", 0), b"AT+CIPSTART=\"TCP\",\"h\",0\r\n".to_vec());
    assert_eq!(send_command(123), b"AT+CIPSEND=123\r\n".to_vec());
    assert_eq!(
        post_request("h", 80, "/tap", "{}", "k"),
        b"POST /tap HTTP/1.0\r\nHost: h:80\r\nContent-Type: application/json\r\nX-Secret: k\r\nContent-Length: 2\r\n\r\n{}".to_vec()
    );
    assert_eq!(
        post_request("h", 80, "/", "", ""),
        b"POST / HTTP/1.0\r\nHost: h:80\r\nContent-Type: application/json\r\nContent-Length: 0\r\n\r\n".to_vec()
    );
}

#[test]
fn module_replies() {
    assert!(connect_succeeded(b"0,CONNECT\r\n\r\nOK\r\n"));
    assert!(!connect_succeeded(b"ALREADY CONNECTED\r\nERROR\r\n"));
    assert!(!connect_succeeded(b"busy p..."));
    assert_eq!(join_reply(b"WIFI CONNECTED\r\nWIFI GOT IP\r\n\r\nOK\r\n"), JoinReply::Joined);
    assert_eq!(join_reply(b"+CWJAP:1\r\n\r\nFAIL\r\n"), JoinReply::Refused);
    assert_eq!(join_reply(b"WIFI DISCONNECT\r\n"), JoinReply::Pending);
    assert_eq!(find_from(b"abcabc", b"bc", 2), Some(4));
    assert_eq!(find_from(b"abcabc", b"x", 0), None);
}

#[test]
fn http_bodies() {
    let data = b"SEND OK\r\n\r\n+IPD,40:HTTP/1.0 200 OK\r\nX: y\r\n\r\n{\"ok\":true}CLOSED\r\n";
    assert_eq!(extract_http_body(data), Some("{\"ok\":true}".to_string()));
    assert_eq!(extract_http_body(b"HTTP/1.0 204 No Content\r\n\r\nCLOSED"), None);
    assert_eq!(extract_http_body(b"no response"), None);
    assert_eq!(extract_http_body(b"HTTP/1.0 200 OK\r\n{}"), None);
    assert_eq!(extract_http_body(b"HTTP/1.0 200 OK\r\n\r\n{\xFF}"), None);
}

#[test]
fn epoch_days() {
    let new_year = Date::from_ymd(2024, 1, 1).unwrap();
    assert_eq!(new_year.to_epoch_days(), 19_723);
    assert_eq!(Date::from_epoch_days(19_723), new_year);
    assert_eq!(Date::from_epoch_days(0), Date::from_ymd(1970, 1, 1).unwrap());
    assert_eq!(Date::from_epoch_days(-1), Date::from_ymd(1969, 12, 31).unwrap());
    assert_eq!(Date::from_epoch_days(i32::MAX), Date::from_ymd(1970, 1, 1).unwrap());
}
