//! Storage of work days, keyed by user and date.

use std::collections::BTreeMap;
use vstd::prelude::*;
use vstd::std_specs::btree::spec_btree_map_iter;
use vstd::std_specs::iter::IteratorSpec;
use vstd::std_specs::cmp::OrdSpec;
use crate::date::Date;
use crate::day::Day;
use crate::day_flags::DayFlags;
use crate::duration::Duration;
use crate::error::Error;
use crate::event::Event;

verus! {

/// What is stored of a day: its date, events, flags, required time and lunch break.
pub type StoredDay = (Date, Seq<Event>, DayFlags, Duration, Duration);

/// `a` comes before `b`: by user, then by day number.
pub open spec fn key_before(a: (u128, i32), b: (u128, i32)) -> bool {
    a.0 < b.0 || (a.0 == b.0 && a.1 < b.1)
}

/// The days of `user` from `from` to `to`, both included, as `stored` holds
/// them, in `days` in date order: each is stored under its key, and every day
/// of the user stored in that span is among them.
pub open spec fn is_range_of(
    days: Seq<StoredDay>,
    stored: Map<(u128, i32), StoredDay>,
    user: u128,
    from: i32,
    to: i32,
) -> bool {
    &&& forall|i: int| 0 <= i < days.len() ==> {
        let d = #[trigger] days[i];
        &&& from <= d.0.day_number <= to
        &&& stored.contains_key((user, d.0.day_number))
        &&& stored[(user, d.0.day_number)] == d
    }
    &&& forall|i: int, j: int| 0 <= i < j < days.len() ==> #[trigger] days[i].0.day_number < #[trigger] days[j].0.day_number
    &&& forall|k: (u128, i32)| #[trigger] stored.contains_key(k) && k.0 == user && from <= k.1 <= to
        ==> exists|i: int| 0 <= i < days.len() && #[trigger] days[i].0.day_number == k.1
}

/// A store of work days, keyed by user and date.
pub trait DayStore {
    /// The stored days, by user id and day number.
    spec fn stored(&self) -> Map<(u128, i32), StoredDay>;

    /// The store's own invariant.
    spec fn well_formed(&self) -> bool;

    /// The day of `user_id` on `date`, if one is stored.
    fn get(&self, user_id: u128, date: Date) -> (r: Result<Option<Day>, Error>)
        requires
            self.well_formed(),
        ensures
            r matches Ok(found) ==> match found {
                Some(d) => self.stored().contains_key((user_id, date.day_number))
                    && d@ == self.stored()[(user_id, date.day_number)],
                None => !self.stored().contains_key((user_id, date.day_number)),
            },
    ;

    /// Stores `day` for `user_id` under its date, in place of any day stored there.
    fn save(&mut self, user_id: u128, day: Day) -> (r: Result<(), Error>)
        requires
            old(self).well_formed(),
        ensures
            final(self).well_formed(),
            r is Ok ==> final(self).stored() == old(self).stored().insert((user_id, day.date.day_number), day@),
            r is Err ==> final(self).stored() == old(self).stored(),
    ;

    /// The days of `user_id` from `from` to `to`, both included, in date order;
    /// `from` is not after `to`.
    fn range(&self, user_id: u128, from: Date, to: Date) -> (r: Result<Vec<Day>, Error>)
        requires
            self.well_formed(),
            from.day_number <= to.day_number,
        ensures
            r matches Ok(days) ==> is_range_of(
                days@.map_values(|d: Day| d@),
                self.stored(),
                user_id,
                from.day_number,
                to.day_number,
            ),
    ;

    /// Removes the day of `user_id` on `date`; whether one was stored.
    fn delete(&mut self, user_id: u128, date: Date) -> (r: Result<bool, Error>)
        requires
            old(self).well_formed(),
        ensures
            final(self).well_formed(),
            r matches Ok(found) ==> found == old(self).stored().contains_key((user_id, date.day_number))
                && final(self).stored() == old(self).stored().remove((user_id, date.day_number)),
            r is Err ==> final(self).stored() == old(self).stored(),
    ;
}

/// A day store in memory: a B-tree map from user and day number to the day.
pub struct MemoryDayStore {
    days: BTreeMap<(u128, i32), Day>,
}

/// Whether the key `k` names a day of `user` from `from` to `to`, both included.
pub open spec fn in_span(k: (u128, i32), user: u128, from: i32, to: i32) -> bool {
    k.0 == user && from <= k.1 <= to
}

impl MemoryDayStore {
    /// Every day is stored under the day number of its own date.
    pub closed spec fn keys_match(self) -> bool {
        forall|k: (u128, i32)| #[trigger] self.days@.contains_key(k) ==> self.days@[k].date.day_number == k.1
    }

    /// An empty store.
    pub fn new() -> (r: MemoryDayStore)
        ensures
            r.well_formed(),
            r.stored() == Map::<(u128, i32), StoredDay>::empty(),
    {
        let r = MemoryDayStore { days: BTreeMap::new() };
        assert(r.days@.map_values(|d: Day| d@) =~= Map::<(u128, i32), StoredDay>::empty());
        r
    }
}

impl DayStore for MemoryDayStore {
    /// The stored days, by user id and day number.
    closed spec fn stored(&self) -> Map<(u128, i32), StoredDay> {
        self.days@.map_values(|d: Day| d@)
    }

    /// Every day is stored under the day number of its own date.
    closed spec fn well_formed(&self) -> bool {
        self.keys_match()
    }

    fn get(&self, user_id: u128, date: Date) -> (r: Result<Option<Day>, Error>)
        ensures
            r is Ok,
    {
        broadcast use vstd::std_specs::btree::group_btree_axioms, vstd::laws_cmp::group_laws_cmp;
        match self.days.get(&(user_id, date.day_number)) {
            Some(d) => Ok(Some(d.clone())),
            None => Ok(None),
        }
    }

    fn save(&mut self, user_id: u128, day: Day) -> (r: Result<(), Error>)
        ensures
            r is Ok,
    {
        broadcast use vstd::std_specs::btree::group_btree_axioms, vstd::laws_cmp::group_laws_cmp;
        let key = (user_id, day.date.day_number);
        let ghost view = day@;
        let ghost before = self.days@;
        self.days.insert(key, day);
        proof {
            assert(self.days@ == before.insert(key, self.days@[key]));
            assert(self.days@.map_values(|d: Day| d@) =~= before.map_values(|d: Day| d@).insert(key, view));
        }
        Ok(())
    }

    fn range(&self, user_id: u128, from: Date, to: Date) -> (r: Result<Vec<Day>, Error>)
        ensures
            r is Ok,
    {
        broadcast use vstd::std_specs::btree::group_btree_axioms, vstd::laws_cmp::group_laws_cmp;
        let ghost m = self.days@;
        let mut days: Vec<Day> = Vec::new();
        let ghost mut src: Seq<int> = Seq::empty();
        let entries = self.days.iter();
        let ghost s = entries.remaining();
        assert(s == spec_btree_map_iter(&self.days).remaining());
        for p in it: entries
            invariant
                it.seq() == s,
                s == spec_btree_map_iter(&self.days).remaining(),
                m == self.days@,
                self.keys_match(),
                days@.len() == src.len(),
                forall|a: int| 0 <= a < src.len() ==> 0 <= #[trigger] src[a] < it.index(),
                forall|a: int, b: int| 0 <= a < b < src.len() ==> #[trigger] src[a] < #[trigger] src[b],
                forall|a: int| 0 <= a < src.len() ==> {
                    &&& in_span(*s[#[trigger] src[a]].0, user_id, from.day_number, to.day_number)
                    &&& days@[a]@ == (*s[src[a]].1)@
                },
                forall|j: int| 0 <= j < it.index() && in_span(*(#[trigger] s[j]).0, user_id, from.day_number, to.day_number)
                    ==> exists|a: int| 0 <= a < src.len() && src[a] == j,
        {
            let (k, d) = p;
            let ghost old_src = src;
            if k.0 == user_id && from.day_number <= k.1 && k.1 <= to.day_number {
                proof {
                    src = src.push(it.index());
                }
                days.push(d.clone());
            }
            proof {
                assert forall|j: int| 0 <= j <= it.index() && in_span(*(#[trigger] s[j]).0, user_id, from.day_number, to.day_number)
                    implies exists|a: int| 0 <= a < src.len() && src[a] == j by {
                    if j < it.index() {
                        let a = choose|a: int| 0 <= a < old_src.len() && old_src[a] == j;
                        assert(src[a] == j);
                    } else {
                        assert(src[src.len() - 1] == j);
                    }
                }
            }
        }
        proof {
            assert forall|i: int, j: int| 0 <= i < j < s.len() implies key_before(*(#[trigger] s[i]).0, *(#[trigger] s[j]).0) by {
                let ks = s.map_values(|kv: (&(u128, i32), &Day)| *kv.0);
                assert(ks[i] == *s[i].0);
                assert(ks[j] == *s[j].0);
                assert(ks[i].cmp_spec(&ks[j]) is Less);
            }
            lemma_range_from_entries(m, s, src, days@.map_values(|d: Day| d@), user_id, from.day_number, to.day_number);
        }
        Ok(days)
    }

    fn delete(&mut self, user_id: u128, date: Date) -> (r: Result<bool, Error>)
        ensures
            r is Ok,
    {
        broadcast use vstd::std_specs::btree::group_btree_axioms, vstd::laws_cmp::group_laws_cmp;
        let key = (user_id, date.day_number);
        let ghost before = self.days@;
        let removed = self.days.remove(&key);
        proof {
            assert(self.days@.map_values(|d: Day| d@) =~= before.map_values(|d: Day| d@).remove(key));
        }
        Ok(removed.is_some())
    }
}

/// The days taken, in order, from the entries `s` of the map `m` at the
/// increasing positions `src` are the days of `m` in the span, in date order.
proof fn lemma_range_from_entries(
    m: Map<(u128, i32), Day>,
    s: Seq<(&(u128, i32), &Day)>,
    src: Seq<int>,
    out: Seq<StoredDay>,
    user: u128,
    from: i32,
    to: i32,
)
    requires
        s.len() == m.dom().len(),
        forall|i: int| 0 <= i < s.len() ==> m.contains_key(*(#[trigger] s[i]).0) && m[*s[i].0] == *s[i].1,
        forall|k: (u128, i32)| #[trigger] m.contains_key(k) ==> s.contains((&k, &m[k])),
        forall|i: int, j: int| 0 <= i < j < s.len() ==> key_before(*(#[trigger] s[i]).0, *(#[trigger] s[j]).0),
        forall|k: (u128, i32)| #[trigger] m.contains_key(k) ==> m[k].date.day_number == k.1,
        out.len() == src.len(),
        forall|a: int| 0 <= a < src.len() ==> 0 <= #[trigger] src[a] < s.len(),
        forall|a: int, b: int| 0 <= a < b < src.len() ==> #[trigger] src[a] < #[trigger] src[b],
        forall|a: int| 0 <= a < src.len() ==> {
            &&& in_span(*s[#[trigger] src[a]].0, user, from, to)
            &&& out[a] == (*s[src[a]].1)@
        },
        forall|j: int| 0 <= j < s.len() && in_span(*(#[trigger] s[j]).0, user, from, to)
            ==> exists|a: int| 0 <= a < src.len() && src[a] == j,
    ensures
        is_range_of(out, m.map_values(|d: Day| d@), user, from, to),
{
    let stored = m.map_values(|d: Day| d@);
    assert forall|i: int| 0 <= i < out.len() implies {
        let d = #[trigger] out[i];
        &&& from <= d.0.day_number <= to
        &&& stored.contains_key((user, d.0.day_number))
        &&& stored[(user, d.0.day_number)] == d
    } by {
        let j = src[i];
        let k = *s[j].0;
        assert(m.contains_key(k));
        assert(in_span(k, user, from, to));
    }
    assert forall|i: int, j: int| 0 <= i < j < out.len() implies #[trigger] out[i].0.day_number < #[trigger] out[j].0.day_number by {
        assert(src[i] < src[j]);
        assert(key_before(*s[src[i]].0, *s[src[j]].0));
        assert(m.contains_key(*s[src[i]].0));
        assert(m.contains_key(*s[src[j]].0));
        assert(in_span(*s[src[i]].0, user, from, to));
        assert(in_span(*s[src[j]].0, user, from, to));
    }
    assert forall|k: (u128, i32)| #[trigger] stored.contains_key(k) && k.0 == user && from <= k.1 <= to implies exists|
        i: int,
    | 0 <= i < out.len() && #[trigger] out[i].0.day_number == k.1 by {
        assert(m.contains_key(k));
        assert(s.contains((&k, &m[k])));
        let j = choose|j: int| 0 <= j < s.len() && s[j] == (&k, &m[k]);
        assert(in_span(*s[j].0, user, from, to));
        let a = choose|a: int| 0 <= a < src.len() && src[a] == j;
        assert(out[a].0.day_number == k.1);
    }
}

/// A read after a write: once `save` has stored `day` for `user`, `get` of that
/// user and the day's date finds it, and the day stored under any other key is
/// what it was.
pub proof fn lemma_get_after_save(stored: Map<(u128, i32), StoredDay>, user: u128, day: StoredDay, key: (u128, i32))
    ensures
        stored.insert((user, day.0.day_number), day).contains_key((user, day.0.day_number)),
        stored.insert((user, day.0.day_number), day)[(user, day.0.day_number)] == day,
        key != (user, day.0.day_number) ==> (stored.insert((user, day.0.day_number), day).contains_key(key)
            == stored.contains_key(key)),
        key != (user, day.0.day_number) && stored.contains_key(key) ==> stored.insert(
            (user, day.0.day_number),
            day,
        )[key] == stored[key],
{
}

/// A read after a delete: once `delete` has removed the day of `user` on `date`,
/// `get` finds nothing there, and the day stored under any other key is what it was.
pub proof fn lemma_get_after_delete(stored: Map<(u128, i32), StoredDay>, user: u128, date: i32, key: (u128, i32))
    ensures
        !stored.remove((user, date)).contains_key((user, date)),
        key != (user, date) ==> (stored.remove((user, date)).contains_key(key) == stored.contains_key(key)),
        key != (user, date) && stored.contains_key(key) ==> stored.remove((user, date))[key] == stored[key],
{
}

/// Saving the same key twice keeps only the second day.
pub proof fn lemma_save_overwrites(stored: Map<(u128, i32), StoredDay>, user: u128, first: StoredDay, second: StoredDay)
    requires
        first.0 == second.0,
    ensures
        stored.insert((user, first.0.day_number), first).insert((user, second.0.day_number), second)
            == stored.insert((user, second.0.day_number), second),
{
    assert(stored.insert((user, first.0.day_number), first).insert((user, second.0.day_number), second)
        =~= stored.insert((user, second.0.day_number), second));
}

} // verus!
