//! The work days of a date range, built from what is stored of each day: its
//! flags, an override of the time it requires, and its events. Days with
//! nothing stored are kept, as the user's calendar makes them.

use std::collections::BTreeMap;
use vstd::prelude::*;
use crate::date::{Date, UNIX_EPOCH_DAY};
use crate::day::Day;
use crate::day_flags::DayFlags;
use crate::duration::Duration;
use crate::event::Event;
use crate::user::{User, new_day_flags};

verus! {

/// A stored event: its row id and the event.
#[derive(Debug, Clone, Copy, PartialEq, Eq, Structural)]
pub struct StoredEvent {
    pub id: u128,
    pub event: Event,
}

/// A day of a range, with the ids of its events, the time it would require as
/// a work day, and whether that time was overridden for the day.
#[derive(Debug)]
pub struct BuiltDay {
    pub day: Day,
    pub event_ids: Vec<u128>,
    pub work_target: Duration,
    pub required_work_hours_overridden: bool,
}

/// Why a range of days is refused.
#[derive(Debug, Clone, Copy, PartialEq, Eq, Structural)]
pub enum RangeError {
    /// The range starts after it ends.
    StartAfterEnd,
}

/// The key of the day with day number `n` in the stored maps: its days since 1970-01-01.
pub open spec fn epoch_key(n: int) -> i32 {
    (n - UNIX_EPOCH_DAY) as i32
}

/// `b` is the day with day number `n` of `user`, built from the stored flags,
/// overrides and events: the stored flags, else the user's calendar; the
/// overridden time, else the user's required time, as its work target; no
/// required time on a weekend or a day off, else the work target; the stored
/// events in their order, with their ids.
pub open spec fn built_as(
    b: BuiltDay,
    user: User,
    n: int,
    flags: Map<i32, DayFlags>,
    overrides: Map<i32, Duration>,
    events: Map<i32, Vec<StoredEvent>>,
) -> bool {
    let k = epoch_key(n);
    let date = Date { day_number: n as i32 };
    let bits = if flags.contains_key(k) {
        flags[k]@
    } else {
        new_day_flags(user.settings.weekends@, user.settings.remote_days@, date.spec_weekday())
    };
    let target = if overrides.contains_key(k) { overrides[k] } else { user.settings.required_work_hours };
    let stored = if events.contains_key(k) { events[k]@ } else { Seq::empty() };
    &&& b.day.date == date
    &&& b.day.flags@ == bits
    &&& b.day.required_work_hours@ == (if bits & 3 != 0 { 0 } else { target@ })
    &&& b.day.lunch_break_duration == user.settings.lunch_break_duration
    &&& b.day.events@ == stored.map_values(|e: StoredEvent| e.event)
    &&& b.event_ids@ == stored.map_values(|e: StoredEvent| e.id)
    &&& b.work_target == target
    &&& b.required_work_hours_overridden == overrides.contains_key(k)
}

/// Stored flags replace the calendar's: a built day whose flags were stored has
/// exactly those flags, whatever weekday it is, and requires no time exactly
/// when they mark a weekend or a day off; a stored override is its work target
/// and, on a day that is neither, its required time; its events are exactly the
/// stored ones, in order.
pub proof fn lemma_stored_day_wins(
    b: BuiltDay,
    user: User,
    n: int,
    flags: Map<i32, DayFlags>,
    overrides: Map<i32, Duration>,
    events: Map<i32, Vec<StoredEvent>>,
)
    requires
        built_as(b, user, n, flags, overrides, events),
    ensures
        b.day.date.day_number == n as i32,
        flags.contains_key(epoch_key(n)) ==> b.day.flags@ == flags[epoch_key(n)]@,
        overrides.contains_key(epoch_key(n)) ==> b.work_target == overrides[epoch_key(n)]
            && b.required_work_hours_overridden,
        !overrides.contains_key(epoch_key(n)) ==> b.work_target == user.settings.required_work_hours
            && !b.required_work_hours_overridden,
        b.day.flags@ & 3 == 0 ==> b.day.required_work_hours@ == b.work_target@,
        b.day.flags@ & 3 != 0 ==> b.day.required_work_hours@ == 0,
        events.contains_key(epoch_key(n)) ==> b.day.events@.len() == events[epoch_key(n)]@.len() && forall|j: int|
            0 <= j < b.day.events@.len() ==> b.day.events@[j] == events[epoch_key(n)]@[j].event
                && b.event_ids@[j] == events[epoch_key(n)]@[j].id,
        !events.contains_key(epoch_key(n)) ==> b.day.events@.len() == 0 && b.event_ids@.len() == 0,
{
}

/// The events and the ids of stored events, in their order.
fn split_events(stored: &Vec<StoredEvent>) -> (r: (Vec<Event>, Vec<u128>))
    ensures
        r.0@ == stored@.map_values(|e: StoredEvent| e.event),
        r.1@ == stored@.map_values(|e: StoredEvent| e.id),
{
    let mut events: Vec<Event> = Vec::new();
    let mut ids: Vec<u128> = Vec::new();
    let mut i: usize = 0;
    while i < stored.len()
        invariant
            i <= stored@.len(),
            events@ == stored@.take(i as int).map_values(|e: StoredEvent| e.event),
            ids@ == stored@.take(i as int).map_values(|e: StoredEvent| e.id),
        decreases stored.len() - i,
    {
        let e = stored[i];
        events.push(e.event);
        ids.push(e.id);
        proof {
            assert(stored@.take(i + 1) =~= stored@.take(i as int).push(e));
        }
        i = i + 1;
    }
    proof {
        assert(stored@.take(i as int) =~= stored@);
    }
    (events, ids)
}

/// What `m` holds under `key`, if anything.
fn lookup<V: Copy>(m: &BTreeMap<i32, V>, key: i32) -> (r: Option<V>)
    ensures
        r == (if m@.contains_key(key) { Some(m@[key]) } else { None::<V> }),
{
    broadcast use vstd::std_specs::btree::group_btree_axioms, vstd::laws_cmp::group_laws_cmp;
    match m.get(&key) {
        Some(v) => Some(*v),
        None => None,
    }
}

/// The events and ids stored under `key`, none when nothing is.
fn stored_events(m: &BTreeMap<i32, Vec<StoredEvent>>, key: i32) -> (r: (Vec<Event>, Vec<u128>))
    ensures
        r.0@ == (if m@.contains_key(key) { m@[key]@ } else { Seq::empty() }).map_values(|e: StoredEvent| e.event),
        r.1@ == (if m@.contains_key(key) { m@[key]@ } else { Seq::empty() }).map_values(|e: StoredEvent| e.id),
{
    broadcast use vstd::std_specs::btree::group_btree_axioms, vstd::laws_cmp::group_laws_cmp;
    match m.get(&key) {
        Some(stored) => split_events(stored),
        None => {
            let ghost empty = Seq::<StoredEvent>::empty();
            assert(empty.map_values(|e: StoredEvent| e.event) =~= Seq::<Event>::empty());
            assert(empty.map_values(|e: StoredEvent| e.id) =~= Seq::<u128>::empty());
            (Vec::new(), Vec::new())
        },
    }
}

/// The day with day number `n` of `user`, built from the stored maps (see [`built_as`]).
fn build_day(
    user: &User,
    n: i32,
    flags_by_day: &BTreeMap<i32, DayFlags>,
    overrides_by_day: &BTreeMap<i32, Duration>,
    events_by_day: &BTreeMap<i32, Vec<StoredEvent>>,
) -> (r: BuiltDay)
    requires
        n >= i32::MIN + UNIX_EPOCH_DAY,
    ensures
        built_as(r, *user, n as int, flags_by_day@, overrides_by_day@, events_by_day@),
{
    let key = n - UNIX_EPOCH_DAY;
    let mut day = user.new_day(Date { day_number: n });
    let flags = match lookup(flags_by_day, key) {
        Some(f) => f,
        None => day.flags,
    };
    let override_duration = lookup(overrides_by_day, key);
    let work_target = match override_duration {
        Some(d) => d,
        None => user.settings.required_work_hours,
    };
    let rest = DayFlags::from_bits_truncate(3);
    assert(3u32 & 7u32 == 3u32) by (bit_vector);
    day.flags = flags;
    day.required_work_hours = if flags.intersects(rest) { Duration::zero() } else { work_target };
    let (events, event_ids) = stored_events(events_by_day, key);
    day.events = events;
    BuiltDay { day, event_ids, work_target, required_work_hours_overridden: override_duration.is_some() }
}

/// The days of `user` from `start` to `end`, both included, in date order, built
/// from the stored flags, required-time overrides and events, keyed by days
/// since 1970-01-01 (see [`built_as`]).
pub fn build_days_from_maps(
    user: &User,
    start: Date,
    end: Date,
    flags_by_day: &BTreeMap<i32, DayFlags>,
    overrides_by_day: &BTreeMap<i32, Duration>,
    events_by_day: BTreeMap<i32, Vec<StoredEvent>>,
) -> (r: Vec<BuiltDay>)
    requires
        start.day_number <= end.day_number,
        start.day_number >= i32::MIN + UNIX_EPOCH_DAY,
    ensures
        r@.len() == end.day_number - start.day_number + 1,
        forall|i: int|
            0 <= i < r@.len() ==> built_as(
                #[trigger] r@[i],
                *user,
                start.day_number + i,
                flags_by_day@,
                overrides_by_day@,
                events_by_day@,
            ),
{
    let mut days: Vec<BuiltDay> = Vec::new();
    let mut n: i64 = start.day_number as i64;
    while n <= end.day_number as i64
        invariant
            start.day_number <= n <= end.day_number + 1,
            start.day_number >= i32::MIN + UNIX_EPOCH_DAY,
            days@.len() == n - start.day_number,
            forall|i: int|
                0 <= i < days@.len() ==> built_as(
                    #[trigger] days@[i],
                    *user,
                    start.day_number + i,
                    flags_by_day@,
                    overrides_by_day@,
                    events_by_day@,
                ),
        decreases end.day_number + 1 - n,
    {
        let built = build_day(user, n as i32, flags_by_day, overrides_by_day, &events_by_day);
        days.push(built);
        n = n + 1;
    }
    days
}

/// The days of `user` from `start` to `end`, both included (see
/// [`build_days_from_maps`]).
///
/// # Errors
///
/// `StartAfterEnd` when the range starts after it ends.
pub fn build_days(
    user: &User,
    start: Date,
    end: Date,
    flags_by_day: &BTreeMap<i32, DayFlags>,
    overrides_by_day: &BTreeMap<i32, Duration>,
    events_by_day: BTreeMap<i32, Vec<StoredEvent>>,
) -> (r: Result<Vec<BuiltDay>, RangeError>)
    requires
        start.day_number >= i32::MIN + UNIX_EPOCH_DAY,
    ensures
        r is Err <==> start.day_number > end.day_number,
        r matches Err(e) ==> e == RangeError::StartAfterEnd,
        r matches Ok(days) ==> {
            &&& days@.len() == end.day_number - start.day_number + 1
            &&& forall|i: int|
                0 <= i < days@.len() ==> built_as(
                    #[trigger] days@[i],
                    *user,
                    start.day_number + i,
                    flags_by_day@,
                    overrides_by_day@,
                    events_by_day@,
                )
        },
{
    if start.day_number > end.day_number {
        return Err(RangeError::StartAfterEnd);
    }
    Ok(build_days_from_maps(user, start, end, flags_by_day, overrides_by_day, events_by_day))
}

} // verus!
