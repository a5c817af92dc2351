//! The card identifier as the clock's RFID reader hands it over: up to ten
//! bytes in a fixed buffer.

use vstd::prelude::*;

verus! {

/// A card UID read by the reader: the first `len` of the ten bytes.
pub struct Uid {
    pub bytes: [u8; 10],
    pub len: usize,
}

impl Uid {
    /// The bytes of the UID that were read.
    pub fn as_slice(&self) -> (r: &[u8])
        requires
            self.len <= 10,
        ensures
            r@ == self.bytes@.take(self.len as int),
    {
        let s = self.bytes.as_slice();
        vstd::slice::slice_subrange(s, 0, self.len)
    }

    /// The UID of the bytes a card answered with: at most the first ten are kept,
    /// the rest of the buffer is zero.
    pub fn from_card_bytes(read: &[u8]) -> (r: Uid)
        ensures
            r.len == (if read@.len() < 10 { read@.len() } else { 10 }),
            r.bytes@.take(r.len as int) == read@.take(r.len as int),
            forall|i: int| r.len <= i < 10 ==> r.bytes@[i] == 0,
    {
        let len = if read.len() < 10 { read.len() } else { 10 };
        let mut bytes = [0u8; 10];
        let mut i: usize = 0;
        while i < len
            invariant
                len <= 10,
                len <= read@.len(),
                i <= len,
                forall|j: int| 0 <= j < i ==> bytes@[j] == read@[j],
                forall|j: int| i <= j < 10 ==> bytes@[j] == 0,
            decreases len - i,
        {
            bytes[i] = read[i];
            i = i + 1;
        }
        assert(bytes@.take(len as int) =~= read@.take(len as int));
        Uid { bytes, len }
    }
}

} // verus!
