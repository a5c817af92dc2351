//! Tests of the in-memory day store.

use taptime::date::Date;
use taptime::day::Day;
use taptime::day_flags::DayFlags;
use taptime::duration::Duration;
use taptime::store::{DayStore, MemoryDayStore};
fn uid() -> u128 {
  uuid::Uuid::new_v4().as_u128()
}

fn date(y: i32, m: u32, d: u32) -> Date {
  Date::from_ymd(y, m, d).unwrap()
}

fn empty_day(d: Date) -> Day {
  Day {
    date: d,
    events: vec![],
    flags: DayFlags::empty(),
    required_work_hours: Duration::hours(8),
    lunch_break_duration: Duration::minutes(30),
  }
}

#[test]
fn get_missing_returns_none() {
  let store = MemoryDayStore::new();
  assert!(store.get(uid(), date(2024, 1, 1)).unwrap().is_none());
}

#[test]
fn save_then_get_roundtrip() {
  let mut store = MemoryDayStore::new();
  let user = uid();
  let d = date(2024, 6, 15);
  store.save(user, empty_day(d)).unwrap();
  assert_eq!(store.get(user, d).unwrap().unwrap().date, d);
}

#[test]
fn save_overwrites_existing_entry() {
  let mut store = MemoryDayStore::new();
  let user = uid();
  let d = date(2024, 6, 15);
  store.save(user, empty_day(d)).unwrap();
  let mut updated = empty_day(d);
  updated.set_weekend();
  store.save(user, updated).unwrap();
  assert!(store.get(user, d).unwrap().unwrap().is_weekend());
}

#[test]
fn delete_existing_returns_true_and_removes() {
  let mut store = MemoryDayStore::new();
  let user = uid();
  let d = date(2024, 6, 15);
  store.save(user, empty_day(d)).unwrap();
  assert!(store.delete(user, d).unwrap());
  assert!(store.get(user, d).unwrap().is_none());
}

#[test]
fn delete_missing_returns_false() {
  let mut store = MemoryDayStore::new();
  assert!(!store.delete(uid(), date(2024, 6, 15)).unwrap());
}

#[test]
fn range_returns_days_within_inclusive_bounds() {
  let mut store = MemoryDayStore::new();
  let user = uid();
  for d in [
    date(2024, 6, 1),
    date(2024, 6, 10),
    date(2024, 6, 20),
    date(2024, 6, 30),
  ] {
    store.save(user, empty_day(d)).unwrap();
  }
  let result = store.range(user, date(2024, 6, 10), date(2024, 6, 20)).unwrap();
  assert_eq!(result.len(), 2);
  assert_eq!(result[0].date, date(2024, 6, 10));
  assert_eq!(result[1].date, date(2024, 6, 20));
}

#[test]
fn range_is_empty_when_no_days_stored() {
  let store = MemoryDayStore::new();
  assert!(store
    .range(uid(), date(2024, 6, 1), date(2024, 6, 30))
    .unwrap()
    .is_empty());
}

#[test]
fn range_excludes_other_users() {
  let mut store = MemoryDayStore::new();
  let user_a = uid();
  let user_b = uid();
  let d = date(2024, 6, 15);
  store.save(user_a, empty_day(d)).unwrap();
  store.save(user_b, empty_day(d)).unwrap();
  let result = store
    .range(user_a, date(2024, 6, 1), date(2024, 6, 30))
    .unwrap();
  assert_eq!(result.len(), 1);
}

#[test]
fn range_returns_sorted_by_date() {
  let mut store = MemoryDayStore::new();
  let user = uid();
  // Insert out of order
  store.save(user, empty_day(date(2024, 6, 20))).unwrap();
  store.save(user, empty_day(date(2024, 6, 5))).unwrap();
  store.save(user, empty_day(date(2024, 6, 12))).unwrap();
  let result = store
    .range(user, date(2024, 6, 1), date(2024, 6, 30))
    .unwrap();
  assert_eq!(result[0].date, date(2024, 6, 5));
  assert_eq!(result[1].date, date(2024, 6, 12));
  assert_eq!(result[2].date, date(2024, 6, 20));
}

// Smoke-test that the trait object compiles (dyn DayStore is object-safe).
#[test]
fn trait_is_object_safe() {
  let store: Box<dyn DayStore> = Box::new(MemoryDayStore::new());
  drop(store);
}
