//! Tests of work days: flags, events, worked time and balance.

use taptime::balance::Balance;
use taptime::date::Date;
use taptime::duration::Duration;
use taptime::error::Error;
use taptime::event::Event;
use taptime::local_time::LocalTime;
use taptime::user::{User, UserSettings};
fn make_user() -> User {
  User {
    id: uuid::Uuid::new_v4().as_u128(),
    name: "Test".to_string(),
    email: "test@example.com".to_string(),
    organization: None,
    time_zone: "UTC".to_string(),
    created_at: chrono::Utc::now().timestamp(),
    last_seen: None,
    rfid_uid: None,
    settings: UserSettings::default(),
  }
}

fn date(y: i32, m: u32, d: u32) -> Date {
  Date::from_ymd(y, m, d).unwrap()
}

fn lt(h: u32, m: u32) -> LocalTime {
  LocalTime::new(h, m, 0).unwrap()
}

#[test]
fn weekend_flag_roundtrip() {
  let mut day = make_user().new_day(date(2024, 1, 1));
  assert!(!day.is_weekend());
  day.set_weekend();
  assert!(day.is_weekend());
  day.clear_weekend();
  assert!(!day.is_weekend());
}

#[test]
fn remote_flag_roundtrip() {
  let mut day = make_user().new_day(date(2024, 1, 1));
  assert!(!day.is_remote());
  day.set_remote();
  assert!(day.is_remote());
  day.clear_remote();
  assert!(!day.is_remote());
}

#[test]
fn day_off_flag_roundtrip() {
  let mut day = make_user().new_day(date(2024, 1, 1));
  assert!(!day.is_day_off());
  day.set_day_off();
  assert!(day.is_day_off());
  day.clear_day_off();
  assert!(!day.is_day_off());
}

#[test]
fn flags_are_independent() {
  let mut day = make_user().new_day(date(2024, 1, 1));
  day.set_weekend();
  day.set_remote();
  assert!(day.is_weekend());
  assert!(day.is_remote());
  assert!(!day.is_day_off());
  day.clear_weekend();
  assert!(!day.is_weekend());
  assert!(day.is_remote());
}

#[test]
fn first_check_in_on_empty_day_is_none() {
  assert!(
    make_user()
      .new_day(date(2024, 1, 1))
      .first_check_in()
      .is_none()
  );
}

#[test]
fn last_check_out_on_empty_day_is_none() {
  assert!(
    make_user()
      .new_day(date(2024, 1, 1))
      .last_check_out()
      .is_none()
  );
}

#[test]
fn first_check_in_returns_earliest_across_multiple_pairs() {
  let mut day = make_user().new_day(date(2024, 1, 1));
  day.add_check_in(lt(9, 0)).unwrap();
  day.add_check_out(lt(12, 0)).unwrap();
  day.add_check_in(lt(13, 0)).unwrap();
  day.add_check_out(lt(17, 0)).unwrap();
  assert_eq!(day.first_check_in().unwrap(), &lt(9, 0));
}

#[test]
fn last_check_out_returns_latest_across_multiple_pairs() {
  let mut day = make_user().new_day(date(2024, 1, 1));
  day.add_check_in(lt(9, 0)).unwrap();
  day.add_check_out(lt(12, 0)).unwrap();
  day.add_check_in(lt(13, 0)).unwrap();
  day.add_check_out(lt(17, 0)).unwrap();
  assert_eq!(day.last_check_out().unwrap(), &lt(17, 0));
}

#[test]
fn consecutive_check_ins_are_rejected() {
  let mut day = make_user().new_day(date(2024, 1, 1));
  day.add_check_in(lt(9, 0)).unwrap();
  assert!(matches!(
    day.add_check_in(lt(10, 0)),
    Err(Error::InvalidCheckInOutSequence(_, _))
  ));
}

#[test]
fn consecutive_check_outs_are_rejected() {
  let mut day = make_user().new_day(date(2024, 1, 1));
  day.add_check_in(lt(9, 0)).unwrap();
  day.add_check_out(lt(17, 0)).unwrap();
  assert!(matches!(
    day.add_check_out(lt(18, 0)),
    Err(Error::InvalidCheckInOutSequence(_, _))
  ));
}

#[test]
fn add_event_delegates_to_correct_variant() {
  let mut day = make_user().new_day(date(2024, 1, 1));
  day.add_event(Event::CheckIn(lt(9, 0))).unwrap();
  day.add_event(Event::CheckOut(lt(17, 0))).unwrap();
  assert_eq!(day.events.len(), 2);
  assert!(day.events[0].is_check_in());
  assert!(day.events[1].is_check_out());
}

// --- work_hours tests ---

#[test]
fn work_hours_with_no_events_is_none() {
  assert!(
    make_user()
      .new_day(date(2024, 1, 1))
      .work_hours()
      .unwrap()
      .is_none()
  );
}

#[test]
fn work_hours_on_weekend_is_none() {
  let mut day = make_user().new_day(date(2024, 1, 6));
  day.add_check_in(lt(9, 0)).unwrap();
  day.add_check_out(lt(17, 0)).unwrap();
  day.set_weekend();
  assert!(day.work_hours().unwrap().is_none());
}

#[test]
fn work_hours_on_day_off_is_none() {
  let mut day = make_user().new_day(date(2024, 1, 1));
  day.add_check_in(lt(9, 0)).unwrap();
  day.add_check_out(lt(17, 0)).unwrap();
  day.set_day_off();
  assert!(day.work_hours().unwrap().is_none());
  assert_eq!(day.balance().unwrap(), Balance::UnderTime(Duration::hours(8)));
  day.clear_day_off();
  assert_eq!(day.work_hours().unwrap().unwrap(), Duration::minutes(450));
}

#[test]
fn work_hours_on_remote_is_zero_balance() {
  let mut day = make_user().new_day(date(2024, 1, 1));
  day.add_check_in(lt(9, 0)).unwrap();
  day.add_check_out(lt(17, 0)).unwrap();
  day.set_remote();
  assert_eq!(day.balance().unwrap(), Balance::Exact);
}

#[test]
fn work_hours_check_in_without_check_out_is_error() {
  let mut day = make_user().new_day(date(2024, 1, 1));
  day.add_check_in(lt(9, 0)).unwrap();
  assert!(matches!(day.work_hours(), Err(Error::CheckOutNotFound)));
}

#[test]
fn work_hours_subtracts_lunch_break() {
  let mut day = make_user().new_day(date(2024, 1, 1));
  day.add_check_in(lt(9, 0)).unwrap();
  day.add_check_out(lt(17, 0)).unwrap(); // 8h raw - 30min = 7h30min
  assert_eq!(
    day.work_hours().unwrap().unwrap(),
    Duration::minutes(450)
  );
}

#[test]
fn work_hours_uses_first_check_in_and_last_check_out() {
  let mut day = make_user().new_day(date(2024, 1, 1));
  day.add_check_in(lt(8, 0)).unwrap();
  day.add_check_out(lt(12, 0)).unwrap();
  day.add_check_in(lt(13, 0)).unwrap();
  day.add_check_out(lt(18, 0)).unwrap(); // span 8:00-18:00 = 10h - 30min = 9h30min
  assert_eq!(
    day.work_hours().unwrap().unwrap(),
    Duration::minutes(570)
  );
}

#[test]
fn balance_overtime() {
  let mut day = make_user().new_day(date(2024, 1, 1));
  day.add_check_in(lt(8, 0)).unwrap();
  day.add_check_out(lt(17, 0)).unwrap(); // 9h - 30min = 8h30min => +30min
  assert_eq!(
    day.balance().unwrap(),
    Balance::Overtime(Duration::minutes(30))
  );
}

#[test]
fn balance_undertime() {
  let mut day = make_user().new_day(date(2024, 1, 1));
  day.add_check_in(lt(9, 0)).unwrap();
  day.add_check_out(lt(16, 0)).unwrap(); // 7h - 30min = 6h30min => -1h30min
  assert_eq!(
    day.balance().unwrap(),
    Balance::UnderTime(Duration::minutes(90))
  );
}

#[test]
fn balance_exact() {
  let mut day = make_user().new_day(date(2024, 1, 1));
  day.add_check_in(lt(8, 0)).unwrap();
  day.add_check_out(lt(16, 30)).unwrap(); // 8h30min - 30min = 8h exact
  assert_eq!(day.balance().unwrap(), Balance::Exact);
}

#[test]
fn balance_weekend_with_no_events_is_full_undertime() {
  let mut day = make_user().new_day(date(2024, 1, 6));
  day.set_weekend(); // work_hours => None => 0h worked
  assert_eq!(
    day.balance().unwrap(),
    Balance::UnderTime(Duration::hours(8))
  );
}
