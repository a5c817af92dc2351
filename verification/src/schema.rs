//! The wire forms of identifiers and week days: a UUID as two 64-bit halves,
//! and a week day as its protocol number.

use vstd::prelude::*;
use crate::date::Weekday;
use crate::error::SchemaError;
use crate::user::{time_zone_known, tz_known};

verus! {

/// A UUID on the wire: its first eight bytes as a big-endian number, and its last eight.
#[derive(Debug, Clone, Copy, PartialEq, Eq, Default, Structural)]
pub struct ProtoUuid {
    pub most_significant_bits: u64,
    pub least_significant_bits: u64,
}

impl ProtoUuid {
    /// The value of the 128 bits, the high half first.
    pub open spec fn value(self) -> int {
        self.most_significant_bits * 0x1_0000_0000_0000_0000 + self.least_significant_bits
    }

    /// The halves of the UUID with these 128 bits (its bytes read big-endian).
    pub fn from_u128(id: u128) -> (r: ProtoUuid)
        ensures
            r.value() == id,
            r.most_significant_bits == id / 0x1_0000_0000_0000_0000,
            r.least_significant_bits == id % 0x1_0000_0000_0000_0000,
    {
        let hi = (id >> 64u32) as u64;
        let lo = id as u64;
        assert(id >> 64u32 == id / 0x1_0000_0000_0000_0000) by (bit_vector);
        assert((id >> 64u32) < 0x1_0000_0000_0000_0000) by (bit_vector);
        assert(id as u64 == id % 0x1_0000_0000_0000_0000) by (bit_vector);
        ProtoUuid { most_significant_bits: hi, least_significant_bits: lo }
    }

    /// The 128 bits of the UUID, the high half first.
    pub fn to_u128(&self) -> (r: u128)
        ensures
            r == self.value(),
    {
        let hi = self.most_significant_bits;
        let lo = self.least_significant_bits;
        assert(((hi as u128) << 64u32) | (lo as u128) == hi * 0x1_0000_0000_0000_0000 + lo) by (bit_vector);
        ((hi as u128) << 64u32) | (lo as u128)
    }
}

/// Splitting a UUID into halves and joining them again gives it back, and so does
/// joining halves and splitting them again.
pub proof fn lemma_uuid_halves_round_trip(id: u128, p: ProtoUuid)
    ensures
        ({
            let halves = ProtoUuid {
                most_significant_bits: (id / 0x1_0000_0000_0000_0000) as u64,
                least_significant_bits: (id % 0x1_0000_0000_0000_0000) as u64,
            };
            halves.value() == id
        }),
        p.value() / 0x1_0000_0000_0000_0000 == p.most_significant_bits,
        p.value() % 0x1_0000_0000_0000_0000 == p.least_significant_bits,
{
    assert(id == (id / 0x1_0000_0000_0000_0000) * 0x1_0000_0000_0000_0000 + id % 0x1_0000_0000_0000_0000)
        by (nonlinear_arith);
    let v = p.value();
    assert(v / 0x1_0000_0000_0000_0000 == p.most_significant_bits && v % 0x1_0000_0000_0000_0000
        == p.least_significant_bits) by (nonlinear_arith)
        requires
            v == p.most_significant_bits * 0x1_0000_0000_0000_0000 + p.least_significant_bits,
            p.least_significant_bits < 0x1_0000_0000_0000_0000,
    ;
}

/// The protocol number of a week day: 1 for Monday to 7 for Sunday (0 is unset).
pub open spec fn proto_weekday_number(day: Weekday) -> int {
    day.index() + 1
}

/// The protocol number of a week day.
pub fn weekday_to_proto(day: Weekday) -> (r: i32)
    ensures
        r == proto_weekday_number(day),
{
    day.to_iso()
}

/// The week day of a protocol number.
///
/// # Errors
///
/// `InvalidWeekday` for 0 (unset) and for any number outside 1-7.
pub fn weekday_from_proto(n: i32) -> (r: Result<Weekday, SchemaError>)
    ensures
        1 <= n <= 7 <==> r is Ok,
        r matches Ok(day) ==> proto_weekday_number(day) == n,
        r matches Err(e) ==> e == SchemaError::InvalidWeekday,
{
    if 1 <= n && n <= 7 {
        let day = Weekday::from_iso(n);
        Ok(day)
    } else {
        Err(SchemaError::InvalidWeekday)
    }
}

/// The time zone named on the wire, kept by its name.
///
/// # Errors
///
/// `InvalidTz` with the name when the time-zone library does not know it.
pub fn time_zone_from_proto(time_zone: String) -> (r: Result<String, SchemaError>)
    ensures
        tz_known(time_zone@) ==> r == Ok::<String, SchemaError>(time_zone),
        !tz_known(time_zone@) ==> r == Err::<String, SchemaError>(SchemaError::InvalidTz(time_zone)),
{
    if time_zone_known(time_zone.as_str()) {
        Ok(time_zone)
    } else {
        Err(SchemaError::InvalidTz(time_zone))
    }
}

} // verus!
