//! Booleans and integers as a source writes them.
//!
//! A value is written as `str::parse` reads it: a boolean as `true` or
//! `false`, an integer as an optional sign followed by decimal digits and
//! nothing else, where `-` is a sign only for the signed widths.

use vstd::prelude::*;

verus! {

/// Whether `c` is one of the ten decimal digits.
pub open spec fn is_digit(c: char) -> bool {
    '0' <= c && c <= '9'
}

/// Whether `s` holds decimal digits only.
pub open spec fn all_digits(s: Seq<char>) -> bool {
    forall|i: int| 0 <= i < s.len() ==> is_digit(#[trigger] s[i])
}

/// The number that the decimal digits `s` write.
pub open spec fn decimal(s: Seq<char>) -> int
    decreases s.len(),
{
    if s.len() == 0 {
        0
    } else {
        decimal(s.drop_last()) * 10 + (s.last() as int - '0' as int)
    }
}

/// The integer that `s` writes, if it writes one between `min` and `max`.
///
/// `s` is an optional sign and at least one digit. A `+` is always a sign; a
/// `-` is one where negative numbers are possible at all (`min < 0`), and
/// otherwise makes `s` no number.
pub open spec fn integer(s: Seq<char>, min: int, max: int) -> Option<int> {
    let negative = min < 0 && s.len() > 0 && s[0] == '-';
    let signed = s.len() > 0 && (s[0] == '+' || negative);
    let digits = if signed {
        s.skip(1)
    } else {
        s
    };
    let value = if negative {
        -decimal(digits)
    } else {
        decimal(digits)
    };
    if digits.len() > 0 && all_digits(digits) && min <= value <= max {
        Some(value)
    } else {
        None
    }
}

/// The boolean that `s` writes.
pub open spec fn boolean(s: Seq<char>) -> Option<bool> {
    if s == "true"@ {
        Some(true)
    } else if s == "false"@ {
        Some(false)
    } else {
        None
    }
}

/// A longer run of digits writes no smaller number.
proof fn lemma_decimal_grows(s: Seq<char>, k: int)
    requires
        all_digits(s),
        0 <= k <= s.len(),
    ensures
        0 <= decimal(s.take(k)) <= decimal(s),
    decreases s.len() - k,
{
    lemma_decimal_nonnegative(s.take(k));
    if k == s.len() {
        assert(s.take(k) =~= s);
    } else {
        lemma_decimal_grows(s, k + 1);
        let longer = s.take(k + 1);
        assert(longer.drop_last() =~= s.take(k));
        assert(is_digit(s[k]));
        assert(longer.last() == s[k]);
    }
}

proof fn lemma_decimal_nonnegative(s: Seq<char>)
    requires
        all_digits(s),
    ensures
        0 <= decimal(s),
    decreases s.len(),
{
    if s.len() > 0 {
        assert(is_digit(s.last()));
        lemma_decimal_nonnegative(s.drop_last());
    }
}

/// Reads `s` as a boolean.
pub fn parse_bool(s: &str) -> (r: Option<bool>)
    ensures
        r == boolean(s@),
{
    if crate::text::same(s, "true") {
        Some(true)
    } else if crate::text::same(s, "false") {
        Some(false)
    } else {
        None
    }
}

/// Reads `s` as an integer between `min` and `max`.
#[verifier::loop_isolation(false)]
fn parse_integer(s: &str, min: i128, max: i128) -> (r: Option<i128>)
    requires
        -0x1_0000_0000_0000_0000 <= min <= 0 <= max <= 0x1_0000_0000_0000_0000,
    ensures
        match r {
            Some(v) => integer(s@, min as int, max as int) == Some(v as int),
            None => integer(s@, min as int, max as int) is None,
        },
{
    let ghost negative_spec = min < 0 && s@.len() > 0 && s@[0] == '-';
    let ghost signed_spec = s@.len() > 0 && (s@[0] == '+' || negative_spec);
    let ghost digits = if signed_spec {
        s@.skip(1)
    } else {
        s@
    };
    if !s.is_ascii() {
        proof {
            let i = choose|i: int| 0 <= i < s@.len() && !('\0' <= #[trigger] s@[i] <= '\u{7f}');
            if signed_spec {
                assert(i != 0);
                assert(digits[i - 1] == s@[i]);
                assert(!is_digit(digits[i - 1]));
            } else {
                assert(!is_digit(digits[i]));
            }
        }
        return None;
    }
    let bytes = s.as_bytes();
    proof {
        vstd::utf8::is_ascii_chars_encode_utf8(s@);
    }
    assert(bytes@.len() == s@.len());
    assert(forall|i: int| 0 <= i < s@.len() ==> s@[i] as u8 == #[trigger] bytes@[i]);
    let n = bytes.len();
    if n == 0 {
        return None;
    }
    let first = bytes[0];
    assert(first == s@[0] as u8);
    let negative = min < 0 && first == 45u8;
    let start: usize = if first == 43u8 || negative {
        1
    } else {
        0
    };
    assert(negative == negative_spec);
    assert((start == 1) == signed_spec);
    assert(digits =~= s@.subrange(start as int, n as int));
    if start == n {
        return None;
    }
    let bound: i128 = if negative {
        -min
    } else {
        max
    };
    let mut acc: i128 = 0;
    let mut i: usize = start;
    assert(s@.subrange(start as int, start as int) =~= Seq::<char>::empty());
    while i < n
        invariant
            start <= i <= n,
            n == s@.len(),
            bytes@.len() == n,
            forall|j: int| 0 <= j < n ==> s@[j] as u8 == #[trigger] bytes@[j],
            forall|j: int| 0 <= j < n ==> '\0' <= #[trigger] s@[j] <= '\u{7f}',
            digits =~= s@.subrange(start as int, n as int),
            all_digits(s@.subrange(start as int, i as int)),
            acc == decimal(s@.subrange(start as int, i as int)),
            0 <= acc <= bound <= 0x1_0000_0000_0000_0000,
            negative ==> bound == -min,
            !negative ==> bound == max,
            negative == negative_spec,
            (start == 1) == signed_spec,
            -0x1_0000_0000_0000_0000 <= min <= 0 <= max <= 0x1_0000_0000_0000_0000,
        decreases n - i,
    {
        let b = bytes[i];
        let ghost c = s@[i as int];
        assert(c as u8 == b);
        if b < 48u8 || b > 57u8 {
            proof {
                assert(digits[i - start] == c);
                assert(!is_digit(c));
            }
            return None;
        }
        assert(is_digit(c));
        let d: i128 = (b - 48u8) as i128;
        assert(d == c as int - '0' as int);
        let next: i128 = acc * 10 + d;
        proof {
            let longer = s@.subrange(start as int, i as int + 1);
            assert(longer.drop_last() =~= s@.subrange(start as int, i as int));
            assert(longer.last() == c);
            assert(all_digits(longer)) by {
                assert forall|j: int| 0 <= j < longer.len() implies is_digit(
                    #[trigger] longer[j],
                ) by {
                    if j < longer.len() - 1 {
                        assert(longer[j] == s@.subrange(start as int, i as int)[j]);
                    }
                }
            }
            assert(next == decimal(longer));
        }
        if next > bound {
            proof {
                if all_digits(digits) {
                    lemma_decimal_grows(digits, i + 1 - start);
                    assert(digits.take(i + 1 - start) =~= s@.subrange(
                        start as int,
                        i as int + 1,
                    ));
                }
            }
            return None;
        }
        acc = next;
        i += 1;
    }
    assert(s@.subrange(start as int, i as int) =~= digits);
    if negative {
        Some(-acc)
    } else {
        Some(acc)
    }
}

/// The signed 8 bit integer that `s` writes.
pub open spec fn spec_i8(s: Seq<char>) -> Option<i8> {
    match integer(s, i8::MIN as int, i8::MAX as int) {
        Some(v) => Some(v as i8),
        None => None,
    }
}

pub open spec fn spec_i16(s: Seq<char>) -> Option<i16> {
    match integer(s, i16::MIN as int, i16::MAX as int) {
        Some(v) => Some(v as i16),
        None => None,
    }
}

pub open spec fn spec_i32(s: Seq<char>) -> Option<i32> {
    match integer(s, i32::MIN as int, i32::MAX as int) {
        Some(v) => Some(v as i32),
        None => None,
    }
}

pub open spec fn spec_i64(s: Seq<char>) -> Option<i64> {
    match integer(s, i64::MIN as int, i64::MAX as int) {
        Some(v) => Some(v as i64),
        None => None,
    }
}

pub open spec fn spec_u8(s: Seq<char>) -> Option<u8> {
    match integer(s, 0, u8::MAX as int) {
        Some(v) => Some(v as u8),
        None => None,
    }
}

pub open spec fn spec_u16(s: Seq<char>) -> Option<u16> {
    match integer(s, 0, u16::MAX as int) {
        Some(v) => Some(v as u16),
        None => None,
    }
}

pub open spec fn spec_u32(s: Seq<char>) -> Option<u32> {
    match integer(s, 0, u32::MAX as int) {
        Some(v) => Some(v as u32),
        None => None,
    }
}

pub open spec fn spec_u64(s: Seq<char>) -> Option<u64> {
    match integer(s, 0, u64::MAX as int) {
        Some(v) => Some(v as u64),
        None => None,
    }
}

pub fn parse_i8(s: &str) -> (r: Option<i8>)
    ensures
        r == spec_i8(s@),
{
    match parse_integer(s, i8::MIN as i128, i8::MAX as i128) {
        Some(v) => Some(v as i8),
        None => None,
    }
}

pub fn parse_i16(s: &str) -> (r: Option<i16>)
    ensures
        r == spec_i16(s@),
{
    match parse_integer(s, i16::MIN as i128, i16::MAX as i128) {
        Some(v) => Some(v as i16),
        None => None,
    }
}

pub fn parse_i32(s: &str) -> (r: Option<i32>)
    ensures
        r == spec_i32(s@),
{
    match parse_integer(s, i32::MIN as i128, i32::MAX as i128) {
        Some(v) => Some(v as i32),
        None => None,
    }
}

pub fn parse_i64(s: &str) -> (r: Option<i64>)
    ensures
        r == spec_i64(s@),
{
    match parse_integer(s, i64::MIN as i128, i64::MAX as i128) {
        Some(v) => Some(v as i64),
        None => None,
    }
}

pub fn parse_u8(s: &str) -> (r: Option<u8>)
    ensures
        r == spec_u8(s@),
{
    match parse_integer(s, 0, u8::MAX as i128) {
        Some(v) => Some(v as u8),
        None => None,
    }
}

pub fn parse_u16(s: &str) -> (r: Option<u16>)
    ensures
        r == spec_u16(s@),
{
    match parse_integer(s, 0, u16::MAX as i128) {
        Some(v) => Some(v as u16),
        None => None,
    }
}

pub fn parse_u32(s: &str) -> (r: Option<u32>)
    ensures
        r == spec_u32(s@),
{
    match parse_integer(s, 0, u32::MAX as i128) {
        Some(v) => Some(v as u32),
        None => None,
    }
}

pub fn parse_u64(s: &str) -> (r: Option<u64>)
    ensures
        r == spec_u64(s@),
{
    match parse_integer(s, 0, u64::MAX as i128) {
        Some(v) => Some(v as u64),
        None => None,
    }
}

} // verus!
