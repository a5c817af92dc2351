use std::collections::BTreeMap;
use taptime::date::Date;
use taptime::day_flags::DayFlags;
use taptime::day_range::{build_days, RangeError, StoredEvent};
use taptime::duration::Duration;
use taptime::event::Event;
use taptime::local_time::LocalTime;
use taptime::user::{User, UserSettings};

fn user() -> User {
    User {
        id: 1,
        name: "Ann".to_string(),
        email: "ann@example.com".to_string(),
        organization: None,
        time_zone: "UTC".to_string(),
        created_at: 0,
        last_seen: None,
        rfid_uid: None,
        settings: UserSettings::default(),
    }
}

fn date(y: i32, m: u32, d: u32) -> Date {
    Date::from_ymd(y, m, d).unwrap()
}

#[test]
fn a_range_keeps_every_day_and_applies_what_is_stored() {
    let start = date(2024, 1, 5); // a Friday
    let end = date(2024, 1, 8); // the Monday after
    let friday = start.to_epoch_days();
    let monday = end.to_epoch_days();
    let mut flags = BTreeMap::new();
    flags.insert(friday, DayFlags::day_off());
    let mut overrides = BTreeMap::new();
    overrides.insert(monday, Duration::hours(6));
    let check_in = Event::CheckIn(LocalTime::new(9, 0, 0).unwrap());
    let check_out = Event::CheckOut(LocalTime::new(15, 0, 0).unwrap());
    let mut events = BTreeMap::new();
    events.insert(monday, vec![StoredEvent { id: 10, event: check_in }, StoredEvent { id: 11, event: check_out }]);

    let days = build_days(&user(), start, end, &flags, &overrides, events).unwrap();
    assert_eq!(days.len(), 4);
    let dates: Vec<Date> = days.iter().map(|b| b.day.date).collect();
    assert_eq!(dates, vec![start, date(2024, 1, 6), date(2024, 1, 7), end]);

    // Friday: a stored day off requires nothing, its work target stays 8h.
    assert_eq!(days[0].day.flags, DayFlags::day_off());
    assert_eq!(days[0].day.required_work_hours, Duration::zero());
    assert_eq!(days[0].work_target, Duration::hours(8));
    assert!(!days[0].required_work_hours_overridden);
    // Saturday: nothing stored, the user's weekend requires nothing.
    assert!(days[1].day.is_weekend());
    assert_eq!(days[1].day.required_work_hours, Duration::zero());
    assert!(days[1].day.events.is_empty());
    // Monday: the override and the events.
    assert_eq!(days[3].day.required_work_hours, Duration::hours(6));
    assert!(days[3].required_work_hours_overridden);
    assert_eq!(days[3].day.events, vec![check_in, check_out]);
    assert_eq!(days[3].event_ids, vec![10, 11]);
    assert_eq!(days[3].day.lunch_break_duration, Duration::minutes(30));
}

#[test]
fn a_range_of_one_day_and_a_reversed_range() {
    let day = date(2024, 3, 1);
    let days = build_days(&user(), day, day, &BTreeMap::new(), &BTreeMap::new(), BTreeMap::new()).unwrap();
    assert_eq!(days.len(), 1);
    assert_eq!(days[0].day.required_work_hours, Duration::hours(8));
    assert!(matches!(
        build_days(&user(), date(2024, 3, 2), day, &BTreeMap::new(), &BTreeMap::new(), BTreeMap::new()),
        Err(RangeError::StartAfterEnd)
    ));
}
