//! Bit-field access on a register byte, written with arithmetic so that
//! the contracts read as plain integer facts.
//!
//! A field is described by its `unit` (2 to the power of its lowest bit)
//! and its `size` (2 to the power of its width).

use vstd::prelude::*;

verus! {

/// The value stored in the field of `byte` that starts at `unit` and holds `size` values.
pub open spec fn field(byte: u8, unit: int, size: int) -> int {
    (byte as int / unit) % size
}

/// `byte` with the field at `unit`/`size` replaced by `value` reduced modulo `size`,
/// every other bit kept.
pub open spec fn with_field(byte: u8, unit: int, size: int, value: int) -> int {
    byte as int - field(byte, unit, size) * unit + (value % size) * unit
}

/// The layouts used by the registers: single bits and the BCD digit groups.
pub open spec fn layout_ok(unit: int, size: int) -> bool {
    ||| (unit == 1 && (size == 2 || size == 4 || size == 8 || size == 16 || size == 256))
    ||| (unit == 2 && size == 2)
    ||| (unit == 4 && size == 2)
    ||| (unit == 8 && (size == 2 || size == 4))
    ||| (unit == 16 && (size == 2 || size == 4 || size == 8 || size == 16))
    ||| (unit == 32 && size == 2)
    ||| (unit == 64 && (size == 2 || size == 4))
    ||| (unit == 128 && size == 2)
}

/// Reads the field at `unit`/`size` of `byte`.
pub fn get_field(byte: u8, unit: u8, size: u16) -> (r: u8)
    requires
        layout_ok(unit as int, size as int),
    ensures
        r == field(byte, unit as int, size as int),
{
    ((byte / unit) as u16 % size) as u8
}

/// Writes `value` (reduced modulo `size`) into the field at `unit`/`size` of `byte`.
pub fn put_field(byte: u8, unit: u8, size: u16, value: u8) -> (r: u8)
    requires
        layout_ok(unit as int, size as int),
    ensures
        r == with_field(byte, unit as int, size as int, value as int),
{
    let old_field: u8 = ((byte / unit) as u16 % size) as u8;
    let new_field: u8 = (value as u16 % size) as u8;
    proof {
        lemma_field_bounds(byte, unit as int, size as int, value as int);
    }
    let cleared: u8 = byte - old_field * unit;
    cleared + new_field * unit
}

/// Clearing a field never underflows and writing one never overflows the byte.
pub proof fn lemma_field_bounds(byte: u8, unit: int, size: int, value: int)
    requires
        layout_ok(unit, size),
    ensures
        0 <= field(byte, unit, size) * unit <= byte,
        0 <= (value % size) * unit,
        byte as int - field(byte, unit, size) * unit + (value % size) * unit <= 255,
        0 <= with_field(byte, unit, size, value) <= 255,
{
    assert(0 <= field(byte, unit, size) * unit <= byte) by (nonlinear_arith)
        requires layout_ok(unit, size);
    assert(0 <= (value % size) * unit) by (nonlinear_arith)
        requires layout_ok(unit, size);
    assert(byte as int - field(byte, unit, size) * unit + (value % size) * unit <= 255) by (nonlinear_arith)
        requires layout_ok(unit, size), 0 <= byte <= 255;
}

} // verus!
