//! Flags of a work day: weekend, day off, remote work.

use vstd::prelude::*;
use vstd::std_specs::convert::FromSpecImpl;

verus! {

/// A set of day flags, held as bits: weekend (bit 0), day off (bit 1), remote (bit 2).
#[derive(Debug, Clone, Copy, PartialEq, Eq, Hash, Structural)]
pub struct DayFlags {
    bits: u32,
}

impl View for DayFlags {
    type V = u32;

    /// The flag bits.
    closed spec fn view(&self) -> u32 {
        self.bits
    }
}

/// The bits of the known flags.
pub open spec fn known_bits() -> u32 {
    7
}

impl DayFlags {
    /// The flag of a day that falls on a weekend.
    pub fn weekend() -> (r: DayFlags)
        ensures
            r@ == 1,
    {
        DayFlags { bits: 0b001 }
    }

    /// The flag of a day off.
    pub fn day_off() -> (r: DayFlags)
        ensures
            r@ == 2,
    {
        DayFlags { bits: 0b010 }
    }

    /// The flag of a day worked remotely.
    pub fn remote() -> (r: DayFlags)
        ensures
            r@ == 4,
    {
        DayFlags { bits: 0b100 }
    }

    /// The flags with these bits, as built by [`DayFlags::from_bits_truncate`].
    pub closed spec fn spec_from_bits(bits: u32) -> DayFlags {
        DayFlags { bits: bits & 7 }
    }

    /// The flag set with no flag.
    pub fn empty() -> (r: DayFlags)
        ensures
            r@ == 0,
    {
        DayFlags { bits: 0 }
    }

    /// The bits of the flags.
    pub fn bits(&self) -> (r: u32)
        ensures
            r == self@,
    {
        self.bits
    }

    /// The flags named by `bits`; unknown bits are dropped.
    pub fn from_bits_truncate(bits: u32) -> (r: DayFlags)
        ensures
            r@ == bits & 7,
            r == DayFlags::spec_from_bits(bits),
    {
        DayFlags { bits: bits & 7 }
    }

    /// Whether every flag of `other` is set.
    pub fn contains(&self, other: DayFlags) -> (r: bool)
        ensures
            r == (self@ & other@ == other@),
    {
        self.bits & other.bits == other.bits
    }

    /// Whether some flag of `other` is set.
    pub fn intersects(&self, other: DayFlags) -> (r: bool)
        ensures
            r == (self@ & other@ != 0),
    {
        self.bits & other.bits != 0
    }

    /// Sets the flags of `other`.
    pub fn insert(&mut self, other: DayFlags)
        ensures
            final(self)@ == old(self)@ | other@,
    {
        self.bits = self.bits | other.bits;
    }

    /// Clears the flags of `other`.
    pub fn remove(&mut self, other: DayFlags)
        ensures
            final(self)@ == old(self)@ & !other@,
    {
        self.bits = self.bits & !other.bits;
    }

    /// Flips the flags of `other`.
    pub fn toggle(&mut self, other: DayFlags)
        ensures
            final(self)@ == old(self)@ ^ other@,
    {
        self.bits = self.bits ^ other.bits;
    }
}

impl From<DayFlags> for u32 {
    fn from(flags: DayFlags) -> (r: u32) {
        flags.bits
    }
}

impl FromSpecImpl<DayFlags> for u32 {
    open spec fn obeys_from_spec() -> bool {
        true
    }

    open spec fn from_spec(flags: DayFlags) -> u32 {
        flags@
    }
}

impl From<u32> for DayFlags {
    fn from(bits: u32) -> (r: DayFlags) {
        DayFlags::from_bits_truncate(bits)
    }
}

impl FromSpecImpl<u32> for DayFlags {
    open spec fn obeys_from_spec() -> bool {
        true
    }

    open spec fn from_spec(bits: u32) -> DayFlags {
        DayFlags::spec_from_bits(bits)
    }
}

/// Setting a single flag bit makes it read as set and leaves the other bits as they were;
/// clearing one makes it read as clear and leaves the others.
pub proof fn lemma_flag_bits(b: u32)
    by (bit_vector)
    ensures
        (b | 1) & 1 == 1, (b | 2) & 2 == 2, (b | 4) & 4 == 4,
        (b & !1u32) & 1 == 0, (b & !2u32) & 2 == 0, (b & !4u32) & 4 == 0,
        (b | 1) & 2 == b & 2, (b | 1) & 4 == b & 4,
        (b | 2) & 1 == b & 1, (b | 2) & 4 == b & 4,
        (b | 4) & 1 == b & 1, (b | 4) & 2 == b & 2,
        (b & !1u32) & 2 == b & 2, (b & !1u32) & 4 == b & 4,
        (b & !2u32) & 1 == b & 1, (b & !2u32) & 4 == b & 4,
        (b & !4u32) & 1 == b & 1, (b & !4u32) & 2 == b & 2,
        b & 1 == 1 || b & 1 == 0, b & 2 == 2 || b & 2 == 0, b & 4 == 4 || b & 4 == 0,
{
}

} // verus!
