//! Identifiers of RFID cards (PICC UIDs): 4, 7 or 10 bytes, written as hex text.

use vstd::prelude::*;
use crate::text::string_push;
use vstd::utf8::is_continuation_byte;
use vstd::string::StringSliceAdditionalSpecFns;
use crate::error::Error;

verus! {

/// A UID of `T` bytes.
#[derive(Debug, Clone, PartialEq, Eq, Hash)]
pub struct GenericUid<const T: usize> {
    pub bytes: [u8; T],
}

impl<const T: usize> GenericUid<T> {
    /// Creates a `GenericUid` from a byte array.
    pub fn new(bytes: [u8; T]) -> (r: Self)
        ensures
            r.bytes == bytes,
    {
        GenericUid { bytes }
    }

    /// The bytes of the UID.
    pub fn as_bytes(&self) -> (r: &[u8])
        ensures
            r@ == self.bytes@,
    {
        self.bytes.as_slice()
    }
}

/// The unique identifier returned by a PICC.
#[derive(Debug, Clone, PartialEq, Eq, Hash)]
pub enum Uid {
    /// Single sized UID, 4 bytes long
    Single(GenericUid<4>),
    /// Double sized UID, 7 bytes long
    Double(GenericUid<7>),
    /// Triple sized UID, 10 bytes long
    Triple(GenericUid<10>),
}

// ---------------------------------------------------------------------------
// Hex text
// ---------------------------------------------------------------------------

/// The upper-case hex digit of a value below 16.
pub open spec fn hex_char(n: int) -> char {
    if n < 10 { (('0' as int) + n) as char } else { (('A' as int) + n - 10) as char }
}

/// Two upper-case hex digits per byte, high digit first, without separators.
pub open spec fn hex_text(bytes: Seq<u8>) -> Seq<char> {
    Seq::new(
        2 * bytes.len(),
        |i: int| if i % 2 == 0 { hex_char((bytes[i / 2] / 16) as int) } else { hex_char((bytes[i / 2] % 16) as int) },
    )
}

/// The separators that hex text may hold between digits: space, `;`, `:`, `.`, `,`, `-`.
pub open spec fn is_separator(b: u8) -> bool {
    b == 0x20 || b == 0x3B || b == 0x3A || b == 0x2E || b == 0x2C || b == 0x2D
}

/// The bytes of `s` without the separators.
pub open spec fn strip_separators(s: Seq<u8>) -> Seq<u8>
    decreases s.len(),
{
    if s.len() == 0 {
        Seq::empty()
    } else {
        let rest = strip_separators(s.drop_last());
        if is_separator(s.last()) { rest } else { rest.push(s.last()) }
    }
}

/// The value of a hex digit byte (`0-9`, `a-f`, `A-F`).
pub open spec fn hex_value(b: u8) -> Option<u8> {
    if 0x30 <= b <= 0x39 {
        Some((b - 0x30) as u8)
    } else if 0x61 <= b <= 0x66 {
        Some((b - 0x61 + 10) as u8)
    } else if 0x41 <= b <= 0x46 {
        Some((b - 0x41 + 10) as u8)
    } else {
        None
    }
}

/// The byte that a two-byte hex number denotes; a leading `+` sign is allowed
/// before a single digit, as in unsigned integer parsing.
pub open spec fn pair_value(b0: u8, b1: u8) -> Option<u8> {
    if b0 == 0x2B {
        hex_value(b1)
    } else {
        match (hex_value(b0), hex_value(b1)) {
            (Some(h), Some(l)) => Some((h * 16 + l) as u8),
            _ => None,
        }
    }
}

/// Whether position `k` of the UTF-8 bytes `c` starts a character (or is the end).
pub open spec fn at_char_boundary(c: Seq<u8>, k: int) -> bool {
    k >= c.len() || !is_continuation_byte(c[k])
}

/// Parsing the first `n` byte pairs of `c` in order: `None` where a pair would
/// cut a character in two before any invalid pair was met, `Some(Err(()))` at the
/// first invalid pair, `Some(Ok(bytes))` when all are valid.
pub open spec fn pairs_outcome(c: Seq<u8>, n: nat) -> Option<Result<Seq<u8>, ()>>
    decreases n,
{
    if n == 0 {
        Some(Ok(Seq::empty()))
    } else {
        match pairs_outcome(c, (n - 1) as nat) {
            None => None,
            Some(Err(())) => Some(Err(())),
            Some(Ok(prefix)) => {
                let i = 2 * (n - 1);
                if !at_char_boundary(c, i) || !at_char_boundary(c, i + 2) {
                    None
                } else {
                    match pair_value(c[i], c[i + 1]) {
                        Some(v) => Some(Ok(prefix.push(v))),
                        None => Some(Err(())),
                    }
                }
            },
        }
    }
}

/// What `Uid::from_hex` gives for the UTF-8 bytes of its input: `None` where the
/// text would be cut inside a character, else the UID bytes or the error.
pub open spec fn from_hex_outcome(bytes: Seq<u8>) -> Option<Result<Seq<u8>, Error>> {
    let c = strip_separators(bytes);
    let len = c.len();
    if len % 2 != 0 {
        Some(Err(Error::UidUnevenLength(len as usize)))
    } else if len / 2 == 4 || len / 2 == 7 || len / 2 == 10 {
        match pairs_outcome(c, len / 2) {
            None => None,
            Some(Err(())) => Some(Err(Error::InvalidUidHex)),
            Some(Ok(v)) => Some(Ok(v)),
        }
    } else {
        Some(Err(Error::InvalidUidLength((len / 2) as usize)))
    }
}

impl Uid {
    /// The bytes of the UID.
    pub open spec fn view_bytes(self) -> Seq<u8> {
        match self {
            Uid::Single(u) => u.bytes@,
            Uid::Double(u) => u.bytes@,
            Uid::Triple(u) => u.bytes@,
        }
    }

    /// Gets the UID as a byte slice.
    pub fn as_bytes(&self) -> (r: &[u8])
        ensures
            r@ == self.view_bytes(),
    {
        match self {
            Uid::Single(u) => u.as_bytes(),
            Uid::Double(u) => u.as_bytes(),
            Uid::Triple(u) => u.as_bytes(),
        }
    }

    /// Gets the UID as upper-case hex text, two digits per byte.
    pub fn as_hex(&self) -> (r: String)
        ensures
            r@ == hex_text(self.view_bytes()),
    {
        let bytes = self.as_bytes();
        let mut s = String::new();
        let mut i: usize = 0;
        while i < bytes.len()
            invariant
                bytes@ == self.view_bytes(),
                i <= bytes.len(),
                s@ == hex_text(bytes@.take(i as int)),
            decreases bytes.len() - i,
        {
            let b = bytes[i];
            string_push(&mut s, hex_digit(b / 16));
            string_push(&mut s, hex_digit(b % 16));
            proof {
                assert(hex_text(bytes@.take(i + 1)) =~= hex_text(bytes@.take(i as int)).push(
                    hex_char((b / 16) as int),
                ).push(hex_char((b % 16) as int)));
            }
            i = i + 1;
        }
        assert(bytes@.take(i as int) =~= bytes@);
        s
    }

    /// Creates a UID from its bytes.
    ///
    /// # Errors
    ///
    /// `InvalidUidLength` with the byte count when it is neither 4, 7 nor 10.
    pub fn from_bytes(v: &[u8]) -> (r: Result<Uid, Error>)
        ensures
            (v@.len() == 4 || v@.len() == 7 || v@.len() == 10) <==> r is Ok,
            r matches Ok(uid) ==> uid.view_bytes() == v@,
            r matches Err(e) ==> e == Error::InvalidUidLength(v@.len() as usize),
    {
        let n = v.len();
        if n == 4 {
            let arr: [u8; 4] = [v[0], v[1], v[2], v[3]];
            assert(arr@ =~= v@);
            Ok(Uid::Single(GenericUid::new(arr)))
        } else if n == 7 {
            let arr: [u8; 7] = [v[0], v[1], v[2], v[3], v[4], v[5], v[6]];
            assert(arr@ =~= v@);
            Ok(Uid::Double(GenericUid::new(arr)))
        } else if n == 10 {
            let arr: [u8; 10] = [v[0], v[1], v[2], v[3], v[4], v[5], v[6], v[7], v[8], v[9]];
            assert(arr@ =~= v@);
            Ok(Uid::Triple(GenericUid::new(arr)))
        } else {
            Err(Error::InvalidUidLength(n))
        }
    }

    /// Creates a UID from hex text.
    ///
    /// Spaces, `;`, `:`, `.`, `,` and `-` between the digits are skipped.
    ///
    /// # Errors
    ///
    /// `UidUnevenLength` for an odd number of remaining bytes, `InvalidUidLength`
    /// for a byte count other than 4, 7 or 10, `InvalidUidHex` for a pair that is
    /// no hex byte.
    pub fn from_hex(s: &str) -> (r: Result<Uid, Error>)
        requires
            from_hex_outcome(s.spec_bytes()) is Some,
        ensures
            match from_hex_outcome(s.spec_bytes()).unwrap() {
                Ok(bytes) => r matches Ok(uid) && uid.view_bytes() == bytes,
                Err(e) => r matches Err(e2) && e2 == e,
            },
    {
        let input = s.as_bytes();
        let mut cleaned: Vec<u8> = Vec::new();
        let mut i: usize = 0;
        while i < input.len()
            invariant
                input@ == s.spec_bytes(),
                i <= input.len(),
                cleaned@ == strip_separators(input@.take(i as int)),
            decreases input.len() - i,
        {
            let c = input[i];
            proof {
                assert(input@.take(i + 1).drop_last() =~= input@.take(i as int));
            }
            if !(c == 0x20 || c == 0x3B || c == 0x3A || c == 0x2E || c == 0x2C || c == 0x2D) {
                cleaned.push(c);
            }
            i = i + 1;
        }
        assert(input@.take(i as int) =~= input@);
        let len = cleaned.len();
        if len % 2 != 0 {
            return Err(Error::UidUnevenLength(len));
        }
        let byte_len = len / 2;
        if byte_len != 4 && byte_len != 7 && byte_len != 10 {
            return Err(Error::InvalidUidLength(byte_len));
        }
        let v = match parse_pairs(&cleaned, byte_len) {
            Ok(v) => v,
            Err(e) => return Err(e),
        };
        if byte_len == 4 {
            let arr: [u8; 4] = [v[0], v[1], v[2], v[3]];
            assert(arr@ =~= v@);
            Ok(Uid::Single(GenericUid::new(arr)))
        } else if byte_len == 7 {
            let arr: [u8; 7] = [v[0], v[1], v[2], v[3], v[4], v[5], v[6]];
            assert(arr@ =~= v@);
            Ok(Uid::Double(GenericUid::new(arr)))
        } else {
            let arr: [u8; 10] = [v[0], v[1], v[2], v[3], v[4], v[5], v[6], v[7], v[8], v[9]];
            assert(arr@ =~= v@);
            Ok(Uid::Triple(GenericUid::new(arr)))
        }
    }
}

// ---------------------------------------------------------------------------
// Round trip of the hex text
// ---------------------------------------------------------------------------

/// The bytes of the hex text of `bytes` (hex digits are ASCII).
pub open spec fn hex_text_bytes(bytes: Seq<u8>) -> Seq<u8> {
    Seq::new(2 * bytes.len(), |i: int| hex_text(bytes)[i] as u8)
}

/// A hex digit is read back as its value.
proof fn lemma_hex_char_value(n: int)
    requires
        0 <= n < 16,
    ensures
        hex_value(hex_char(n) as u8) == Some(n as u8),
        hex_char(n) as u8 != 0x2B,
        !is_separator(hex_char(n) as u8),
        (hex_char(n) as u8) < 0x80,
        '\0' <= hex_char(n) <= '\u{7f}',
{
}

/// Hex text holds no separators.
proof fn lemma_strip_hex_text(bytes: Seq<u8>, k: int)
    requires
        0 <= k <= 2 * bytes.len(),
    ensures
        strip_separators(hex_text_bytes(bytes).take(k)) == hex_text_bytes(bytes).take(k),
    decreases k,
{
    let h = hex_text_bytes(bytes);
    if k > 0 {
        lemma_strip_hex_text(bytes, k - 1);
        assert(h.take(k).drop_last() =~= h.take(k - 1));
        let i = k - 1;
        if i % 2 == 0 {
            lemma_hex_char_value((bytes[i / 2] / 16) as int);
        } else {
            lemma_hex_char_value((bytes[i / 2] % 16) as int);
        }
        assert(h.take(k - 1).push(h[k - 1]) =~= h.take(k));
    }
}

/// Each pair of hex text is read back as its byte.
proof fn lemma_pairs_hex_text(bytes: Seq<u8>, k: nat)
    requires
        k <= bytes.len(),
    ensures
        pairs_outcome(hex_text_bytes(bytes), k) == Some(Ok::<Seq<u8>, ()>(bytes.take(k as int))),
    decreases k,
{
    let h = hex_text_bytes(bytes);
    if k > 0 {
        lemma_pairs_hex_text(bytes, (k - 1) as nat);
        let j = k - 1;
        let b = bytes[j];
        lemma_hex_char_value((b / 16) as int);
        lemma_hex_char_value((b % 16) as int);
        assert(h[2 * j] == hex_char((b / 16) as int) as u8);
        assert(h[2 * j + 1] == hex_char((b % 16) as int) as u8);
        if 2 * j + 2 < h.len() {
            let b2 = bytes[j + 1];
            lemma_hex_char_value((b2 / 16) as int);
            assert(h[2 * j + 2] == hex_char((b2 / 16) as int) as u8);
        }
        assert(pair_value(h[2 * j], h[2 * j + 1]) == Some(b));
        assert(at_char_boundary(h, 2 * j));
        assert(at_char_boundary(h, 2 * j + 2));
        assert(bytes.take(j as int).push(b) =~= bytes.take(k as int));
    } else {
        assert(bytes.take(0) =~= Seq::<u8>::empty());
    }
}

/// Reading back the hex text of UID bytes gives the bytes.
pub proof fn lemma_hex_text_round_trip(bytes: Seq<u8>)
    requires
        bytes.len() == 4 || bytes.len() == 7 || bytes.len() == 10,
    ensures
        from_hex_outcome(hex_text_bytes(bytes)) == Some(Ok::<Seq<u8>, Error>(bytes)),
{
    let h = hex_text_bytes(bytes);
    lemma_strip_hex_text(bytes, (2 * bytes.len()) as int);
    assert(h.take((2 * bytes.len()) as int) =~= h);
    lemma_pairs_hex_text(bytes, bytes.len());
    assert(bytes.take(bytes.len() as int) =~= bytes);
}

/// `from_hex` on the text that `as_hex` writes gives the same UID bytes back.
pub proof fn lemma_uid_hex_round_trip(uid: Uid, text: &str)
    requires
        text@ == hex_text(uid.view_bytes()),
    ensures
        from_hex_outcome(text.spec_bytes()) == Some(Ok::<Seq<u8>, Error>(uid.view_bytes())),
{
    let bytes = uid.view_bytes();
    assert(bytes.len() == 4 || bytes.len() == 7 || bytes.len() == 10);
    assert forall|i: int| 0 <= i < text@.len() implies '\0' <= #[trigger] text@[i] <= '\u{7f}' by {
        if i % 2 == 0 {
            lemma_hex_char_value((bytes[i / 2] / 16) as int);
        } else {
            lemma_hex_char_value((bytes[i / 2] % 16) as int);
        }
    }
    assert(vstd::string::is_ascii(text));
    vstd::string::is_ascii_spec_bytes(text);
    assert(text.spec_bytes() =~= hex_text_bytes(bytes));
    lemma_hex_text_round_trip(bytes);
}

/// Parses the first `n` byte pairs of `c`.
fn parse_pairs(c: &Vec<u8>, n: usize) -> (r: Result<Vec<u8>, Error>)
    requires
        2 * n <= c.len(),
        pairs_outcome(c@, n as nat) is Some,
    ensures
        match pairs_outcome(c@, n as nat).unwrap() {
            Ok(bytes) => r matches Ok(v) && v@ == bytes,
            Err(()) => r matches Err(e) && e == Error::InvalidUidHex,
        },
        r matches Ok(v) ==> v.len() == n,
{
    let mut out: Vec<u8> = Vec::new();
    let mut i: usize = 0;
    while i < n
        invariant
            2 * n <= c.len(),
            i <= n,
            pairs_outcome(c@, n as nat) is Some,
            pairs_outcome(c@, i as nat) == Some(Ok::<Seq<u8>, ()>(out@)),
            out.len() == i,
        decreases n - i,
    {
        proof {
            lemma_pairs_outcome_prefix(c@, (i + 1) as nat, n as nat);
        }
        match parse_pair(c[2 * i], c[2 * i + 1]) {
            Some(v) => {
                out.push(v);
            },
            None => {
                proof {
                    lemma_pairs_outcome_err(c@, (i + 1) as nat, n as nat);
                }
                return Err(Error::InvalidUidHex);
            },
        }
        i = i + 1;
    }
    Ok(out)
}

/// An outcome that is not cut inside a character stays so for fewer pairs.
proof fn lemma_pairs_outcome_prefix(c: Seq<u8>, k: nat, n: nat)
    requires
        k <= n,
        pairs_outcome(c, n) is Some,
    ensures
        pairs_outcome(c, k) is Some,
    decreases n - k,
{
    if k < n {
        lemma_pairs_outcome_prefix(c, (k + 1) as nat, n);
    }
}

/// Once a pair is invalid, every longer parse ends in the same error.
proof fn lemma_pairs_outcome_err(c: Seq<u8>, k: nat, n: nat)
    requires
        k <= n,
        pairs_outcome(c, k) == Some(Err::<Seq<u8>, ()>(())),
    ensures
        pairs_outcome(c, n) == Some(Err::<Seq<u8>, ()>(())),
    decreases n - k,
{
    if k < n {
        lemma_pairs_outcome_err(c, (k + 1) as nat, n);
    }
}

/// Parses one pair of hex digit bytes (see [`pair_value`]).
fn parse_pair(b0: u8, b1: u8) -> (r: Option<u8>)
    ensures
        r == pair_value(b0, b1),
{
    if b0 == 0x2B {
        return parse_hex_digit(b1);
    }
    match (parse_hex_digit(b0), parse_hex_digit(b1)) {
        (Some(h), Some(l)) => Some(h * 16 + l),
        _ => None,
    }
}

/// The value of a hex digit byte.
fn parse_hex_digit(b: u8) -> (r: Option<u8>)
    ensures
        r == hex_value(b),
{
    if 0x30 <= b && b <= 0x39 {
        Some(b - 0x30)
    } else if 0x61 <= b && b <= 0x66 {
        Some(b - 0x61 + 10)
    } else if 0x41 <= b && b <= 0x46 {
        Some(b - 0x41 + 10)
    } else {
        None
    }
}

/// The upper-case hex digit of a value below 16.
fn hex_digit(n: u8) -> (r: char)
    requires
        n < 16,
    ensures
        r == hex_char(n as int),
{
    if n < 10 {
        match n {
            0 => '0', 1 => '1', 2 => '2', 3 => '3', 4 => '4',
            5 => '5', 6 => '6', 7 => '7', 8 => '8', _ => '9',
        }
    } else {
        match n {
            10 => 'A', 11 => 'B', 12 => 'C', 13 => 'D', 14 => 'E', _ => 'F',
        }
    }
}


// ---------------------------------------------------------------------------
// Separators between the pairs
// ---------------------------------------------------------------------------

/// The upper-case ASCII hex digit of `n` (below 16): `0`-`9`, then `A`-`F`.
pub open spec fn upper_hex_digit(n: int) -> u8 {
    if n < 10 { (0x30 + n) as u8 } else { (0x37 + n) as u8 }
}

/// The two upper-case hex digits of the byte `b`, high digit first.
pub open spec fn hex_pair(b: u8) -> Seq<u8> {
    seq![upper_hex_digit(b as int / 16), upper_hex_digit(b as int % 16)]
}

/// The hex pairs of `bytes`, in order, with the byte `sep` between each two.
pub open spec fn joined_hex(bytes: Seq<u8>, sep: u8) -> Seq<u8>
    decreases bytes.len(),
{
    if bytes.len() == 0 {
        Seq::empty()
    } else if bytes.len() == 1 {
        hex_pair(bytes[0])
    } else {
        joined_hex(bytes.drop_last(), sep) + seq![sep] + hex_pair(bytes.last())
    }
}

/// Dropping separators distributes over concatenation.
proof fn lemma_strip_concat(a: Seq<u8>, b: Seq<u8>)
    ensures
        strip_separators(a + b) == strip_separators(a) + strip_separators(b),
    decreases b.len(),
{
    if b.len() == 0 {
        assert(a + b =~= a);
        assert(strip_separators(a) + strip_separators(b) =~= strip_separators(a));
    } else {
        lemma_strip_concat(a, b.drop_last());
        assert((a + b).drop_last() =~= a + b.drop_last());
        assert((a + b).last() == b.last());
        let r = strip_separators(a) + strip_separators(b.drop_last());
        assert(r.push(b.last()) =~= strip_separators(a) + strip_separators(b.drop_last()).push(b.last()));
    }
}

/// The hex pairs of `bytes` one after the other, without separators, are its hex text.
proof fn lemma_joined_strips_to_hex_text(bytes: Seq<u8>, sep: u8)
    requires
        is_separator(sep),
    ensures
        strip_separators(joined_hex(bytes, sep)) == hex_text_bytes(bytes),
    decreases bytes.len(),
{
    if bytes.len() == 0 {
        assert(hex_text_bytes(bytes) =~= Seq::<u8>::empty());
    } else {
        let b = bytes.last();
        let pair = hex_pair(b);
        lemma_hex_char_value((b / 16) as int);
        lemma_hex_char_value((b % 16) as int);
        assert(hex_char((b / 16) as int) as u8 == upper_hex_digit(b as int / 16));
        assert(hex_char((b % 16) as int) as u8 == upper_hex_digit(b as int % 16));
        assert(strip_separators(pair) == pair) by {
            reveal_with_fuel(strip_separators, 3);
            assert(pair.drop_last().drop_last() =~= Seq::<u8>::empty());
            assert(seq![pair[0]] =~= pair.drop_last());
            assert(Seq::<u8>::empty().push(pair[0]) =~= seq![pair[0]]);
            assert(seq![pair[0]].push(pair[1]) =~= pair);
        }
        let init = bytes.drop_last();
        let hi = hex_text_bytes(init);
        assert(hex_text_bytes(bytes) =~= hi + pair) by {
            assert forall|i: int| 0 <= i < 2 * bytes.len() implies #[trigger] hex_text_bytes(bytes)[i] == (hi + pair)[i] by {
                if i < 2 * init.len() {
                    assert(bytes[i / 2] == init[i / 2]);
                } else {
                    assert(i / 2 == bytes.len() - 1);
                }
            }
        }
        if bytes.len() == 1 {
            assert(init.len() == 0);
            assert(hi =~= Seq::<u8>::empty());
            assert(hi + pair =~= pair);
        } else {
            lemma_joined_strips_to_hex_text(init, sep);
            let sep_seq = seq![sep];
            assert(strip_separators(sep_seq) =~= Seq::<u8>::empty()) by {
                reveal_with_fuel(strip_separators, 2);
        assert(sep_seq.drop_last() =~= Seq::<u8>::empty());
            }
            lemma_strip_concat(joined_hex(init, sep) + sep_seq, pair);
            lemma_strip_concat(joined_hex(init, sep), sep_seq);
            assert(hi + Seq::<u8>::empty() =~= hi);
        }
    }
}

/// Separators anywhere do not change what hex text reads as: the text with one
/// more separator byte inserted reads as the text itself.
pub proof fn lemma_separator_is_ignored(text: Seq<u8>, i: int, sep: u8)
    requires
        0 <= i <= text.len(),
        sep == 0x20 || sep == 0x3B || sep == 0x3A || sep == 0x2E || sep == 0x2C || sep == 0x2D,
    ensures
        from_hex_outcome(text.insert(i, sep)) == from_hex_outcome(text),
{
    let before = text.subrange(0, i);
    let after = text.subrange(i, text.len() as int);
    assert(text.insert(i, sep) =~= before + seq![sep] + after);
    assert(text =~= before + after);
    let sep_seq = seq![sep];
    assert(strip_separators(sep_seq) =~= Seq::<u8>::empty()) by {
        reveal_with_fuel(strip_separators, 2);
        assert(sep_seq.drop_last() =~= Seq::<u8>::empty());
    }
    lemma_strip_concat(before + sep_seq, after);
    lemma_strip_concat(before, sep_seq);
    lemma_strip_concat(before, after);
    assert(strip_separators(before) + Seq::<u8>::empty() =~= strip_separators(before));
}

/// The upper-case hex pairs of a UID's bytes, joined by any of the separators
/// space, `;`, `:`, `.`, `,` or `-`, read back as that UID's bytes.
pub proof fn lemma_separated_hex_round_trip(bytes: Seq<u8>, sep: u8)
    requires
        bytes.len() == 4 || bytes.len() == 7 || bytes.len() == 10,
        sep == 0x20 || sep == 0x3B || sep == 0x3A || sep == 0x2E || sep == 0x2C || sep == 0x2D,
    ensures
        from_hex_outcome(joined_hex(bytes, sep)) == Some(Ok::<Seq<u8>, Error>(bytes)),
{
    lemma_joined_strips_to_hex_text(bytes, sep);
    lemma_hex_text_round_trip(bytes);
    lemma_strip_hex_text(bytes, (2 * bytes.len()) as int);
    assert(hex_text_bytes(bytes).take((2 * bytes.len()) as int) =~= hex_text_bytes(bytes));
}

} // verus!
