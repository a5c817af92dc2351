//! The texts the clock's display shows: the time and date, a card UID, and the
//! frames of the Wi-Fi spinner. Drawing them stays with the firmware.

use vstd::prelude::*;
use crate::text::string_push;

verus! {

/// The decimal digits of `n`, most significant first ("0" for zero).
pub open spec fn decimal_chars(n: nat) -> Seq<char>
    decreases n,
{
    if n < 10 {
        seq![('0' as u8 + n) as char]
    } else {
        decimal_chars(n / 10).push(('0' as u8 + n % 10) as char)
    }
}

/// The decimal digits of `n`, with zeros in front up to `width` characters.
pub open spec fn zero_padded(n: nat, width: nat) -> Seq<char> {
    let digits = decimal_chars(n);
    if digits.len() >= width {
        digits
    } else {
        Seq::new((width - digits.len()) as nat, |i: int| '0') + digits
    }
}

/// Appends the decimal digits of `n`.
fn push_digits(s: &mut String, n: u64)
    ensures
        final(s)@ == old(s)@ + decimal_chars(n as nat),
    decreases n,
{
    if n >= 10 {
        push_digits(s, n / 10);
    }
    let d = (n % 10) as u8;
    string_push(s, (48u8 + d) as char);
    proof {
        if n < 10 {
            assert(n % 10 == n);
        }
    }
}

/// The number of decimal digits of `n`.
fn digit_count(n: u64) -> (r: u64)
    ensures
        r == decimal_chars(n as nat).len(),
        1 <= r <= 20,
    decreases n,
{
    if n < 10 {
        1
    } else {
        proof {
            lemma_digit_count_bound(n as nat);
        }
        digit_count(n / 10) + 1
    }
}

/// A number has at most twenty decimal digits below 2^64.
proof fn lemma_digit_count_bound(n: nat)
    requires
        n <= u64::MAX,
    ensures
        1 <= decimal_chars(n).len() <= 20,
{
    assert(pow10(20) == 100_000_000_000_000_000_000) by {
        reveal_with_fuel(pow10, 21);
    }
    lemma_digits_below(n, 20);
}

/// A number below 10^k (k at least 1) has at most k decimal digits.
proof fn lemma_digits_below(n: nat, k: nat)
    requires
        k >= 1,
        n < pow10(k),
    ensures
        1 <= decimal_chars(n).len() <= k,
    decreases k,
{
    if n >= 10 {
        if k == 1 {
            assert(pow10(1) == 10) by {
                reveal_with_fuel(pow10, 2);
            }
        } else {
            assert(pow10(k) == 10 * pow10((k - 1) as nat));
            lemma_digits_below(n / 10, (k - 1) as nat);
        }
    }
}

/// Ten to the power `k`.
pub open spec fn pow10(k: nat) -> nat
    decreases k,
{
    if k == 0 { 1 } else { 10 * pow10((k - 1) as nat) }
}

/// Appends `n` in decimal, zero-padded to `width` characters.
fn push_padded(s: &mut String, n: u64, width: u64)
    requires
        width <= 20,
    ensures
        final(s)@ == old(s)@ + zero_padded(n as nat, width as nat),
{
    let count = digit_count(n);
    let mut k = count;
    let ghost start = s@;
    while k < width
        invariant
            count == decimal_chars(n as nat).len(),
            count <= k,
            k <= width || k == count,
            s@ == start + Seq::new((k - count) as nat, |i: int| '0'),
        decreases width - k,
    {
        string_push(s, '0');
        proof {
            assert(Seq::new((k + 1 - count) as nat, |i: int| '0') =~= Seq::new((k - count) as nat, |i: int| '0').push('0'));
        }
        k = k + 1;
    }
    let ghost zeros = s@;
    push_digits(s, n);
    proof {
        if count >= width {
            assert(Seq::new((k - count) as nat, |i: int| '0') =~= Seq::<char>::empty());
            assert(s@ =~= start + decimal_chars(n as nat));
        } else {
            assert(k == width);
            assert(s@ =~= start + (Seq::new((width - count) as nat, |i: int| '0') + decimal_chars(n as nat)));
        }
    }
}

/// The time of day as `HH:MM:SS`, each part zero-padded to two digits.
pub fn clock_text(hour: u32, minute: u32, second: u32) -> (r: String)
    ensures
        r@ == zero_padded(hour as nat, 2) + seq![':'] + zero_padded(minute as nat, 2) + seq![':'] + zero_padded(
            second as nat,
            2,
        ),
{
    let mut s = String::new();
    push_padded(&mut s, hour as u64, 2);
    string_push(&mut s, ':');
    push_padded(&mut s, minute as u64, 2);
    string_push(&mut s, ':');
    push_padded(&mut s, second as u64, 2);
    s
}

/// The hour and minute as `HH:MM`, each zero-padded to two digits.
pub fn hour_minute_text(hour: u8, minute: u8) -> (r: String)
    ensures
        r@ == zero_padded(hour as nat, 2) + seq![':'] + zero_padded(minute as nat, 2),
{
    let mut s = String::new();
    push_padded(&mut s, hour as u64, 2);
    string_push(&mut s, ':');
    push_padded(&mut s, minute as u64, 2);
    s
}

/// A year as four characters at least: zero-padded, a minus sign counting
/// toward the width.
pub open spec fn year_chars(year: int) -> Seq<char> {
    if year >= 0 {
        zero_padded(year as nat, 4)
    } else {
        seq!['-'] + zero_padded((-year) as nat, 3)
    }
}

/// The date as `YYYY-MM-DD`, zero-padded.
pub fn date_text(year: i32, month: u32, day: u32) -> (r: String)
    ensures
        r@ == year_chars(year as int) + seq!['-'] + zero_padded(month as nat, 2) + seq!['-'] + zero_padded(
            day as nat,
            2,
        ),
{
    let mut s = String::new();
    if year >= 0 {
        push_padded(&mut s, year as u64, 4);
    } else {
        string_push(&mut s, '-');
        let magnitude = (-(year as i64)) as u64;
        push_padded(&mut s, magnitude, 3);
    }
    string_push(&mut s, '-');
    push_padded(&mut s, month as u64, 2);
    string_push(&mut s, '-');
    push_padded(&mut s, day as u64, 2);
    s
}

/// The upper-case hex digit of a value below 16.
pub open spec fn hex_digit_char(v: int) -> char {
    if v < 10 { ('0' as int + v) as char } else { ('A' as int + v - 10) as char }
}

/// The bytes as upper-case hex pairs separated by single spaces.
pub open spec fn spaced_hex(bytes: Seq<u8>) -> Seq<char>
    decreases bytes.len(),
{
    if bytes.len() == 0 {
        Seq::empty()
    } else {
        let b = bytes.last();
        let pair = seq![hex_digit_char(b as int / 16), hex_digit_char(b as int % 16)];
        if bytes.len() == 1 {
            pair
        } else {
            spaced_hex(bytes.drop_last()) + seq![' '] + pair
        }
    }
}

/// The upper-case hex digit of a value below 16.
fn hex_digit(v: u8) -> (r: char)
    requires
        v < 16,
    ensures
        r == hex_digit_char(v as int),
{
    if v < 10 {
        (48u8 + v) as char
    } else {
        (65u8 + (v - 10)) as char
    }
}

/// A card UID as the display shows it: hex pairs separated by spaces, e.g. `A1 B2 C3 D4`.
pub fn uid_display_text(bytes: &[u8]) -> (r: String)
    ensures
        r@ == spaced_hex(bytes@),
{
    let mut s = String::new();
    let mut i: usize = 0;
    while i < bytes.len()
        invariant
            i <= bytes@.len(),
            s@ == spaced_hex(bytes@.take(i as int)),
        decreases bytes.len() - i,
    {
        let b = bytes[i];
        proof {
            assert(bytes@.take(i + 1).drop_last() =~= bytes@.take(i as int));
        }
        if i > 0 {
            string_push(&mut s, ' ');
        }
        string_push(&mut s, hex_digit(b / 16));
        string_push(&mut s, hex_digit(b % 16));
        proof {
            let t = bytes@.take(i + 1);
            assert(t.last() == b);
            if i == 0 {
                assert(s@ =~= spaced_hex(t));
            } else {
                assert(s@ =~= spaced_hex(t));
            }
        }
        i = i + 1;
    }
    assert(bytes@.take(i as int) =~= bytes@);
    s
}

/// The spinner frame shown while joining Wi-Fi: `|`, `/`, `-`, `\` in turn.
pub fn spinner_frame(frame: u8) -> (r: &'static str)
    ensures
        r@ == (if frame % 4 == 0 {
            seq!['|']
        } else if frame % 4 == 1 {
            seq!['/']
        } else if frame % 4 == 2 {
            seq!['-']
        } else {
            seq!['\\']
        }),
{
    proof {
        reveal_strlit("|");
        reveal_strlit("/");
        reveal_strlit("-");
        reveal_strlit("\\");
    }
    let k = frame % 4;
    if k == 0 {
        "|"
    } else if k == 1 {
        "/"
    } else if k == 2 {
        "-"
    } else {
        "\\"
    }
}

} // verus!
