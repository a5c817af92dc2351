//! Tests of the wire forms: UUID halves, week day numbers, time zones.

use taptime::date::Weekday;
use taptime::error::SchemaError;
use taptime::schema::{time_zone_from_proto, weekday_from_proto, weekday_to_proto, ProtoUuid};
use uuid::Uuid as ExternalUuid;

#[test]
fn test_uuid_round_trip() {
    let original = ExternalUuid::new_v4();
    let proto_uuid = ProtoUuid::from_u128(original.as_u128());
    let round_tripped = ExternalUuid::from_u128(proto_uuid.to_u128());
    assert_eq!(original, round_tripped, "Round-trip conversion failed!");
}

#[test]
fn test_nil_uuid() {
    let nil = ExternalUuid::nil();
    let proto_uuid = ProtoUuid::from_u128(nil.as_u128());
    assert_eq!(proto_uuid.most_significant_bits, 0);
    assert_eq!(proto_uuid.least_significant_bits, 0);
}

#[test]
fn test_specific_bit_alignment() {
    let input_str = "01234567-89ab-cdef-0123-456789abcdef";
    let external = ExternalUuid::parse_str(input_str).unwrap();
    let proto = ProtoUuid::from_u128(external.as_u128());
    assert_eq!(proto.most_significant_bits, 0x0123456789abcdef);
    assert_eq!(proto.least_significant_bits, 0x0123456789abcdef);
}

#[test]
fn test_endian_ordering() {
    let external = ExternalUuid::from_u128(0xFF00000000000000_0000000000000000);
    let proto = ProtoUuid::from_u128(external.as_u128());
    assert_eq!(proto.most_significant_bits, 0xFF00000000000000);
    assert_eq!(proto.least_significant_bits, 0);
}

#[test]
fn uuid_halves_follow_the_bytes() {
    let external = ExternalUuid::from_bytes([1, 2, 3, 4, 5, 6, 7, 8, 9, 10, 11, 12, 13, 14, 15, 16]);
    let proto = ProtoUuid::from_u128(external.as_u128());
    assert_eq!(proto.most_significant_bits, 0x0102030405060708);
    assert_eq!(proto.least_significant_bits, 0x090A0B0C0D0E0F10);
    assert_eq!(proto.to_u128(), external.as_u128());
}

#[test]
fn weekday_numbers() {
    assert_eq!(weekday_to_proto(Weekday::Mon), 1);
    assert_eq!(weekday_to_proto(Weekday::Sun), 7);
    assert_eq!(weekday_from_proto(3), Ok(Weekday::Wed));
    assert_eq!(weekday_from_proto(7), Ok(Weekday::Sun));
    assert_eq!(weekday_from_proto(0), Err(SchemaError::InvalidWeekday));
    assert_eq!(weekday_from_proto(8), Err(SchemaError::InvalidWeekday));
    assert_eq!(Weekday::from_iso(6), Weekday::Sat);
    assert_eq!(Weekday::from_iso(0), Weekday::Sun);
    assert_eq!(Weekday::Thu.to_iso(), 4);
}

#[test]
fn time_zone_names() {
    assert_eq!(time_zone_from_proto("Europe/Berlin".to_string()), Ok("Europe/Berlin".to_string()));
    assert_eq!(
        time_zone_from_proto("Mars/Olympus".to_string()),
        Err(SchemaError::InvalidTz("Mars/Olympus".to_string()))
    );
}
