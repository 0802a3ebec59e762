//! Parsers for property values as defined in RFC 5545 Section 3.3, on the
//! bytes of a value. Each parser reads the whole input or fails.

use vstd::prelude::*;
use vstd::string::StringSliceAdditionalSpecFns;

use crate::value::{ValueDate, ValueDateTime, ValueDuration, ValueTime, ValueUtcOffset};

verus! {

// ---------------------------------------------------------------------------
// Digits
// ---------------------------------------------------------------------------

/// Whether a byte is an ASCII digit.
pub open spec fn is_digit(c: u8) -> bool {
    48 <= c <= 57
}

/// The value of a digit byte.
pub open spec fn digit_value(c: u8) -> nat {
    (c - 48) as nat
}

/// Whether every byte is an ASCII digit.
pub open spec fn all_digits(s: Seq<u8>) -> bool {
    forall|i: int| 0 <= i < s.len() ==> is_digit(#[trigger] s[i])
}

/// The value of a sequence of decimal digits.
pub open spec fn digits_value(s: Seq<u8>) -> nat
    decreases s.len(),
{
    if s.len() == 0 {
        0
    } else {
        digits_value(s.drop_last()) * 10 + digit_value(s.last())
    }
}

/// A longer run of digits is worth at least as much as its prefix.
proof fn lemma_digits_value_mono(s: Seq<u8>, k: int)
    requires
        0 <= k <= s.len(),
        all_digits(s),
    ensures
        digits_value(s.take(k)) <= digits_value(s),
    decreases s.len() - k,
{
    if k < s.len() {
        lemma_digits_value_mono(s, k + 1);
        assert(s.take(k + 1).drop_last() =~= s.take(k));
    } else {
        assert(s.take(k) =~= s);
    }
}

// ---------------------------------------------------------------------------
// BOOLEAN (RFC 5545 Section 3.3.2)
// ---------------------------------------------------------------------------

/// `boolean = "TRUE" / "FALSE"`, case-sensitive.
pub open spec fn boolean_spec(b: Seq<u8>) -> Option<bool> {
    if b == "TRUE".spec_bytes() {
        Some(true)
    } else if b == "FALSE".spec_bytes() {
        Some(false)
    } else {
        None
    }
}

/// Parse a `BOOLEAN` value.
pub fn property_value_boolean(src: &str) -> (r: Option<bool>)
    ensures
        r == boolean_spec(src.spec_bytes()),
{
    parse_boolean(src.as_bytes())
}

/// Parse the bytes of a `BOOLEAN` value.
pub fn parse_boolean(b: &[u8]) -> (r: Option<bool>)
    ensures
        r == boolean_spec(b@),
{
    proof {
        reveal_strlit("TRUE");
        reveal_strlit("FALSE");
        reveal_with_fuel(vstd::utf8::encode_utf8, 5);
    }
    let t = "TRUE".as_bytes();
    let f = "FALSE".as_bytes();
    if bytes_eq(b, t) {
        Some(true)
    } else if bytes_eq(b, f) {
        Some(false)
    } else {
        None
    }
}

fn bytes_eq(a: &[u8], b: &[u8]) -> (r: bool)
    ensures
        r == (a@ == b@),
{
    if a.len() != b.len() {
        return false;
    }
    let mut i: usize = 0;
    while i < a.len()
        invariant
            a@.len() == b@.len(),
            0 <= i <= a@.len(),
            forall|j: int| 0 <= j < i ==> a@[j] == b@[j],
        decreases a@.len() - i,
    {
        if a[i] != b[i] {
            return false;
        }
        i = i + 1;
    }
    assert(a@ =~= b@);
    true
}

// ---------------------------------------------------------------------------
// INTEGER (RFC 5545 Section 3.3.8)
// ---------------------------------------------------------------------------

/// The sign of a value that may start with `+` or `-`: whether it is
/// negative, and where its digits start.
pub open spec fn sign_prefix(b: Seq<u8>) -> (bool, int) {
    if b.len() > 0 && b[0] == 43u8 {
        (false, 1)
    } else if b.len() > 0 && b[0] == 45u8 {
        (true, 1)
    } else {
        (false, 0)
    }
}

/// `integer = (["+"] / "-") 1*DIGIT`, in the range of `i32`.
pub open spec fn integer_spec(b: Seq<u8>) -> Option<i32> {
    let (neg, start) = sign_prefix(b);
    let digits = b.skip(start);
    if digits.len() == 0 || !all_digits(digits) {
        None
    } else {
        let v: int = if neg {
            -(digits_value(digits) as int)
        } else {
            digits_value(digits) as int
        };
        if i32::MIN <= v <= i32::MAX {
            Some(v as i32)
        } else {
            None
        }
    }
}

// ---------------------------------------------------------------------------
// FLOAT (RFC 5545 Section 3.3.7)
// ---------------------------------------------------------------------------

/// Whether digits follow one optional fraction: `1*DIGIT ["." 1*DIGIT]`.
pub open spec fn decimal_spec(d: Seq<u8>) -> bool {
    ||| d.len() > 0 && all_digits(d)
    ||| exists|k: int|
        0 < k < d.len() - 1 && #[trigger] d[k] == 46u8 && all_digits(d.take(k)) && all_digits(d.skip(k + 1))
}

/// `float = (["+"] / "-") 1*DIGIT ["." 1*DIGIT]`: whether the bytes spell a
/// number in this notation. Its value as a binary floating-point number is
/// not read here.
pub open spec fn float_spec(b: Seq<u8>) -> bool {
    decimal_spec(b.skip(sign_prefix(b).1))
}

/// Check the notation of a `FLOAT` value.
pub fn check_float(b: &[u8]) -> (r: bool)
    ensures
        r == float_spec(b@),
{
    let ghost s = b@;
    let n = b.len();
    let start: usize = if n > 0 && (b[0] == 43u8 || b[0] == 45u8) {
        1
    } else {
        0
    };
    assert(start as int == sign_prefix(s).1);
    let ghost d = s.skip(start as int);
    let mut i: usize = start;
    while i < n && 48u8 <= b[i] && b[i] <= 57u8
        invariant
            start <= i <= n,
            n == s.len(),
            s == b@,
            d == s.skip(start as int),
            all_digits(d.take(i - start)),
        decreases n - i,
    {
        assert(d.take(i + 1 - start) =~= d.take(i - start).push(d[i - start]));
        i = i + 1;
    }
    let p = i - start;
    if p == 0 {
        assert(d.len() > 0 ==> !is_digit(d[0]));
        assert forall|k: int| 0 < k < d.len() - 1 && #[trigger] d[k] == 46u8 implies !all_digits(d.take(k)) by {
            assert(d.take(k)[0] == d[0]);
        }
        return false;
    }
    if i == n {
        assert(d.take(p as int) =~= d);
        return true;
    }
    if b[i] != 46u8 {
        assert(!is_digit(d[p as int]));
        assert forall|k: int| 0 < k < d.len() - 1 && #[trigger] d[k] == 46u8 implies !all_digits(d.take(k)) by {
            if k > p {
                assert(d.take(k)[p as int] == d[p as int]);
            } else {
                assert(k < p);
                assert(d.take(p as int)[k] == d[k]);
            }
        }
        return false;
    }
    let dot = i;
    i = i + 1;
    let frac_start = i;
    while i < n && 48u8 <= b[i] && b[i] <= 57u8
        invariant
            dot < frac_start <= i <= n,
            frac_start == dot + 1,
            n == s.len(),
            s == b@,
            d == s.skip(start as int),
            all_digits(s.subrange(frac_start as int, i as int)),
        decreases n - i,
    {
        assert(s.subrange(frac_start as int, i + 1) =~= s.subrange(frac_start as int, i as int).push(s[i as int]));
        i = i + 1;
    }
    let ok = i == n && i > frac_start;
    proof {
        let k = p as int;
        assert(d[k] == 46u8);
        if ok {
            assert(d.skip(k + 1) =~= s.subrange(frac_start as int, i as int));
            assert(0 < k < d.len() - 1 && d[k] == 46u8 && all_digits(d.take(k)) && all_digits(d.skip(k + 1)));
        } else {
            assert(!all_digits(d)) by {
                assert(!is_digit(d[k]));
            }
            assert forall|k2: int| 0 < k2 < d.len() - 1 && #[trigger] d[k2] == 46u8 implies !(all_digits(d.take(k2))
                && all_digits(d.skip(k2 + 1))) by {
                if k2 > k {
                    assert(d.take(k2)[k] == d[k]);
                } else if k2 < k {
                    assert(d.take(k)[k2] == d[k2]);
                } else {
                    if i < n {
                        assert(!is_digit(d[i - start]));
                        assert(d.skip(k + 1)[i - start - k - 1] == d[i - start]);
                    }
                }
            }
        }
    }
    ok
}

/// Check the notation of a `FLOAT` value given as text.
pub fn property_value_float(src: &str) -> (r: bool)
    ensures
        r == float_spec(src.spec_bytes()),
{
    check_float(src.as_bytes())
}

/// The parser of `FLOAT` values as a function value: the bytes themselves,
/// when they spell a number.
pub open spec fn float_parser() -> spec_fn(Seq<u8>) -> Option<Seq<u8>> {
    |b: Seq<u8>| if float_spec(b) {
        Some(b)
    } else {
        None
    }
}

/// Parse an `INTEGER` value.
pub fn property_value_integer(src: &str) -> (r: Option<i32>)
    ensures
        r == integer_spec(src.spec_bytes()),
{
    parse_integer(src.as_bytes())
}

/// Parse the bytes of an `INTEGER` value.
pub fn parse_integer(b: &[u8]) -> (r: Option<i32>)
    ensures
        r == integer_spec(b@),
{
    let ghost s = b@;
    let n = b.len();
    let (neg, start): (bool, usize) = if n > 0 && b[0] == 43u8 {
        (false, 1)
    } else if n > 0 && b[0] == 45u8 {
        (true, 1)
    } else {
        (false, 0)
    };
    if start >= n {
        return None;
    }
    let ghost digits = s.skip(start as int);
    let mut acc: u64 = 0;
    let mut i: usize = start;
    while i < n
        invariant
            s == b@,
            (neg, start as int) == sign_prefix(s),
            n == s.len(),
            start <= i <= n,
            digits == s.skip(start as int),
            all_digits(s.subrange(start as int, i as int)),
            acc == digits_value(s.subrange(start as int, i as int)),
            acc <= 2147483648,
        decreases n - i,
    {
        let c = b[i];
        if c < 48u8 || c > 57u8 {
            assert(digits[i - start] == c);
            assert(!is_digit(digits[i - start]));
            assert(!all_digits(digits));
            return None;
        }
        let ghost pre = s.subrange(start as int, i as int);
        assert(s.subrange(start as int, i as int + 1).drop_last() =~= pre);
        acc = acc * 10 + (c - 48u8) as u64;
        i = i + 1;
        if acc > 2147483648 {
            proof {
                let cur = s.subrange(start as int, i as int);
                // the value can only grow, or a later byte is not a digit
                if all_digits(digits) {
                    assert(digits.take(i - start) =~= cur);
                    lemma_digits_value_mono(digits, i - start);
                    assert(digits_value(digits) > 2147483648);
                }
            }
            return None;
        }
    }
    assert(s.subrange(start as int, n as int) =~= digits);
    if neg {
        let v: i64 = -(acc as i64);
        Some(v as i32)
    } else {
        if acc > 2147483647 {
            return None;
        }
        Some(acc as i32)
    }
}

// ---------------------------------------------------------------------------
// TIME (RFC 5545 Section 3.3.12)
// ---------------------------------------------------------------------------

/// `time-hour = 2DIGIT ;00-23` at `p`.
pub open spec fn hour_at(b: Seq<u8>, p: int) -> Option<int> {
    if p + 1 < b.len() && 48 <= b[p] <= 49 && is_digit(b[p + 1]) {
        Some((10 * digit_value(b[p]) + digit_value(b[p + 1])) as int)
    } else if b.len() > 1 && p < b.len() - 1 && b[p] == 50 && 48 <= b[p + 1] <= 51 {
        Some((20 + digit_value(b[p + 1])) as int)
    } else {
        None
    }
}

/// `time-minute = 2DIGIT ;00-59` at `p`.
pub open spec fn minute_at(b: Seq<u8>, p: int) -> Option<int> {
    if p + 1 < b.len() && 48 <= b[p] <= 53 && is_digit(b[p + 1]) {
        Some((10 * digit_value(b[p]) + digit_value(b[p + 1])) as int)
    } else {
        None
    }
}

/// `time-second = 2DIGIT ;00-60` at `p`; the leap second 60 is read as 59.
pub open spec fn second_at(b: Seq<u8>, p: int) -> Option<int> {
    if p + 1 < b.len() && 48 <= b[p] <= 53 && is_digit(b[p + 1]) {
        Some((10 * digit_value(b[p]) + digit_value(b[p + 1])) as int)
    } else if b.len() > 1 && p < b.len() - 1 && b[p] == 54 && b[p + 1] == 48 {
        Some(59)
    } else {
        None
    }
}

/// `time = time-hour time-minute time-second [time-utc]`.
pub open spec fn time_spec(b: Seq<u8>) -> Option<ValueTime> {
    match (hour_at(b, 0), minute_at(b, 2), second_at(b, 4)) {
        (Some(h), Some(m), Some(s)) => if b.len() == 6 {
            Some(ValueTime { hour: h as i8, minute: m as i8, second: s as i8, utc: false })
        } else if b.len() == 7 && b[6] == 90 {
            Some(ValueTime { hour: h as i8, minute: m as i8, second: s as i8, utc: true })
        } else {
            None
        },
        _ => None,
    }
}

fn two_digits(b: &[u8], p: usize) -> (r: i8)
    requires
        p + 1 < b@.len(),
        is_digit(b@[p as int]),
        is_digit(b@[p as int + 1]),
    ensures
        r == 10 * digit_value(b@[p as int]) + digit_value(b@[p as int + 1]),
{
    let a = (b[p] - 48u8) as i8;
    let c = (b[p + 1] - 48u8) as i8;
    10 * a + c
}

fn parse_hour(b: &[u8], p: usize) -> (r: Option<i8>)
    requires
        p <= b@.len(),
    ensures
        match hour_at(b@, p as int) {
            Some(v) => r == Some(v as i8) && 0 <= v <= 23,
            None => r is None,
        },
{
    if b.len() > 1 && p < b.len() - 1 && b[p] >= 48u8 && b[p] <= 49u8 && b[p + 1] >= 48u8 && b[p + 1] <= 57u8 {
        Some(two_digits(b, p))
    } else if b.len() > 1 && p < b.len() - 1 && b[p] == 50u8 && b[p + 1] >= 48u8 && b[p + 1] <= 51u8 {
        Some(20 + (b[p + 1] - 48u8) as i8)
    } else {
        None
    }
}

fn parse_minute(b: &[u8], p: usize) -> (r: Option<i8>)
    requires
        p <= b@.len(),
    ensures
        match minute_at(b@, p as int) {
            Some(v) => r == Some(v as i8) && 0 <= v <= 59,
            None => r is None,
        },
{
    if b.len() > 1 && p < b.len() - 1 && b[p] >= 48u8 && b[p] <= 53u8 && b[p + 1] >= 48u8 && b[p + 1] <= 57u8 {
        Some(two_digits(b, p))
    } else {
        None
    }
}

fn parse_second(b: &[u8], p: usize) -> (r: Option<i8>)
    requires
        p <= b@.len(),
    ensures
        match second_at(b@, p as int) {
            Some(v) => r == Some(v as i8) && 0 <= v <= 59,
            None => r is None,
        },
{
    if b.len() > 1 && p < b.len() - 1 && b[p] >= 48u8 && b[p] <= 53u8 && b[p + 1] >= 48u8 && b[p + 1] <= 57u8 {
        Some(two_digits(b, p))
    } else if b.len() > 1 && p < b.len() - 1 && b[p] == 54u8 && b[p + 1] == 48u8 {
        Some(59)
    } else {
        None
    }
}

/// Parse a `TIME` value.
pub fn property_value_time(src: &str) -> (r: Option<ValueTime>)
    ensures
        r == time_spec(src.spec_bytes()),
{
    parse_time(src.as_bytes())
}

/// Parse the bytes of a `TIME` value.
pub fn parse_time(b: &[u8]) -> (r: Option<ValueTime>)
    ensures
        r == time_spec(b@),
{
    let h = parse_hour(b, 0);
    let m = if b.len() >= 2 {
        parse_minute(b, 2)
    } else {
        None
    };
    let s = if b.len() >= 4 {
        parse_second(b, 4)
    } else {
        None
    };
    match (h, m, s) {
        (Some(hour), Some(minute), Some(second)) => {
            if b.len() == 6 {
                Some(ValueTime { hour, minute, second, utc: false })
            } else if b.len() == 7 && b[6] == 90u8 {
                Some(ValueTime { hour, minute, second, utc: true })
            } else {
                None
            }
        },
        _ => None,
    }
}

// ---------------------------------------------------------------------------
// UTC-OFFSET (RFC 5545 Section 3.3.14)
// ---------------------------------------------------------------------------

/// `utc-offset = ("+" / "-") time-hour time-minute [time-second]`.
pub open spec fn utc_offset_spec(b: Seq<u8>) -> Option<ValueUtcOffset> {
    if b.len() > 0 && (b[0] == 43 || b[0] == 45) {
        match (hour_at(b, 1), minute_at(b, 3)) {
            (Some(h), Some(m)) => if b.len() == 5 {
                Some(ValueUtcOffset { positive: b[0] != 45, hour: h as u8, minute: m as u8, second: 0 })
            } else {
                match second_at(b, 5) {
                    Some(s) => if b.len() == 7 {
                        Some(
                            ValueUtcOffset {
                                positive: b[0] != 45,
                                hour: h as u8,
                                minute: m as u8,
                                second: s as u8,
                            },
                        )
                    } else {
                        None
                    },
                    None => None,
                }
            },
            _ => None,
        }
    } else {
        None
    }
}

/// Parse a `UTC-OFFSET` value.
pub fn property_value_utc_offset(src: &str) -> (r: Option<ValueUtcOffset>)
    ensures
        r == utc_offset_spec(src.spec_bytes()),
{
    parse_utc_offset(src.as_bytes())
}

/// Parse the bytes of a `UTC-OFFSET` value.
pub fn parse_utc_offset(b: &[u8]) -> (r: Option<ValueUtcOffset>)
    ensures
        r == utc_offset_spec(b@),
{
    if b.len() == 0 || (b[0] != 43u8 && b[0] != 45u8) {
        return None;
    }
    let positive = b[0] != 45u8;
    let h = parse_hour(b, 1);
    let m = if b.len() >= 3 {
        parse_minute(b, 3)
    } else {
        None
    };
    match (h, m) {
        (Some(hour), Some(minute)) => {
            if b.len() == 5 {
                return Some(ValueUtcOffset { positive, hour: hour as u8, minute: minute as u8, second: 0 });
            }
            if b.len() < 5 {
                return None;
            }
            match parse_second(b, 5) {
                Some(second) => {
                    if b.len() == 7 {
                        Some(
                            ValueUtcOffset {
                                positive,
                                hour: hour as u8,
                                minute: minute as u8,
                                second: second as u8,
                            },
                        )
                    } else {
                        None
                    }
                },
                None => None,
            }
        },
        _ => None,
    }
}

// ---------------------------------------------------------------------------
// DATE (RFC 5545 Section 3.3.4)
// ---------------------------------------------------------------------------

/// Whether a year is a leap year of the Gregorian calendar.
pub open spec fn is_leap_year(y: int) -> bool {
    (y % 4 == 0 && y % 100 != 0) || y % 400 == 0
}

/// The number of days of a month.
pub open spec fn days_in_month(y: int, m: int) -> int {
    if m == 2 {
        if is_leap_year(y) {
            29
        } else {
            28
        }
    } else if m == 4 || m == 6 || m == 9 || m == 11 {
        30
    } else {
        31
    }
}

/// The year, month and day spelled by eight digits, if the input is eight
/// digits.
pub open spec fn date_digits(b: Seq<u8>) -> Option<(int, int, int)> {
    if b.len() == 8 && all_digits(b) {
        Some(
            (
                digits_value(b.subrange(0, 4)) as int,
                digits_value(b.subrange(4, 6)) as int,
                digits_value(b.subrange(6, 8)) as int,
            ),
        )
    } else {
        None
    }
}

/// Whether a year, month and day name a day of the calendar.
pub open spec fn is_valid_date(y: int, m: int, d: int) -> bool {
    1 <= m <= 12 && 1 <= d <= days_in_month(y, m)
}

/// `date-value = date-fullyear date-month date-mday`.
pub open spec fn date_spec(b: Seq<u8>) -> Option<ValueDate> {
    match date_digits(b) {
        Some((y, m, d)) => Some(ValueDate { year: y as i16, month: m as i8, day: d as i8 }),
        None => None,
    }
}

fn digits_at(b: &[u8], p: usize, k: usize) -> (r: u32)
    requires
        p + k <= b@.len(),
        k <= 4,
        all_digits(b@.subrange(p as int, (p + k) as int)),
    ensures
        r == digits_value(b@.subrange(p as int, (p + k) as int)),
        r < 10000,
{
    let mut acc: u32 = 0;
    let mut i: usize = 0;
    let _len = b.len();
    while i < k
        invariant
            p + k <= b@.len(),
            b@.len() <= usize::MAX,
            k <= 4,
            0 <= i <= k,
            all_digits(b@.subrange(p as int, (p + k) as int)),
            acc == digits_value(b@.subrange(p as int, (p + i) as int)),
            acc < pow10(i as nat),
        decreases k - i,
    {
        assert(is_digit(b@.subrange(p as int, (p + k) as int)[i as int]));
        assert(b@.subrange(p as int, (p + k) as int)[i as int] == b@[p + i]);
        assert(b@.subrange(p as int, (p + i + 1) as int).drop_last() =~= b@.subrange(p as int, (p + i) as int));
        proof {
            reveal_with_fuel(pow10, 5);
        }
        let c = b[p + i];
        assert(c == b@[p + i]);
        assert(is_digit(c));
        acc = acc * 10 + (c - 48u8) as u32;
        i = i + 1;
    }
    assert(b@.subrange(p as int, (p + i) as int) =~= b@.subrange(p as int, (p + k) as int));
    proof {
        reveal_with_fuel(pow10, 5);
    }
    acc
}

/// Ten to the power `n`, for small `n`.
pub open spec fn pow10(n: nat) -> nat
    decreases n,
{
    if n == 0 {
        1
    } else {
        10 * pow10((n - 1) as nat)
    }
}

/// Parse a `DATE` value. An input of eight digits that names no day of the
/// calendar (such as `20230230`) is outside the domain of this parser.
pub fn property_value_date(src: &str) -> (r: Option<ValueDate>)
    requires
        date_digits(src.spec_bytes()) matches Some((y, m, d)) ==> is_valid_date(y, m, d),
    ensures
        r == date_spec(src.spec_bytes()),
{
    parse_date(src.as_bytes())
}

/// The date that eight digits spell, if it is a day of the calendar.
pub open spec fn valid_date_spec(b: Seq<u8>) -> Option<ValueDate> {
    match date_digits(b) {
        Some((y, m, d)) => if is_valid_date(y, m, d) {
            date_spec(b)
        } else {
            None
        },
        None => None,
    }
}

/// Parse the bytes of a `DATE` value: eight digits that name a day of the
/// calendar.
pub fn parse_date(b: &[u8]) -> (r: Option<ValueDate>)
    ensures
        r == valid_date_spec(b@),
{
    if b.len() != 8 {
        return None;
    }
    let mut i: usize = 0;
    while i < 8
        invariant
            b@.len() == 8,
            0 <= i <= 8,
            forall|j: int| 0 <= j < i ==> is_digit(#[trigger] b@[j]),
        decreases 8 - i,
    {
        if b[i] < 48u8 || b[i] > 57u8 {
            assert(!is_digit(b@[i as int]));
            return None;
        }
        i = i + 1;
    }
    assert(all_digits(b@));
    let y = digits_at(b, 0, 4);
    let m = digits_at(b, 4, 2);
    let d = digits_at(b, 6, 2);
    if m < 1 || m > 12 || d < 1 || d > month_days(y, m) {
        return None;
    }
    Some(ValueDate { year: y as i16, month: m as i8, day: d as i8 })
}

fn month_days(y: u32, m: u32) -> (r: u32)
    ensures
        r == days_in_month(y as int, m as int),
{
    if m == 2 {
        if (y % 4 == 0 && y % 100 != 0) || y % 400 == 0 {
            29
        } else {
            28
        }
    } else if m == 4 || m == 6 || m == 9 || m == 11 {
        30
    } else {
        31
    }
}

// ---------------------------------------------------------------------------
// DURATION (RFC 5545 Section 3.3.6)
// ---------------------------------------------------------------------------

/// The outcome of reading a part of a value at a position: the part and the
/// position after it; no match; or a number too large for `u32`, which the
/// reader does not accept as input.
pub enum Read<T> {
    /// The part was read, up to the position
    Done(T, int),
    /// The bytes there do not spell the part
    NoMatch,
    /// A number there is too large
    Overflow,
}

/// The number of digits from `p` on, at most `cap`.
pub open spec fn run_len(b: Seq<u8>, p: int, cap: nat) -> nat
    decreases cap,
{
    if cap == 0 || p < 0 || p >= b.len() || !is_digit(b[p]) {
        0
    } else {
        1 + run_len(b, p + 1, (cap - 1) as nat)
    }
}

/// A number of one to ten digits at `p`.
pub open spec fn uint_at(b: Seq<u8>, p: int) -> Read<nat> {
    let k = run_len(b, p, 10);
    if k == 0 {
        Read::NoMatch
    } else {
        let v = digits_value(b.subrange(p, p + k));
        if v > u32::MAX {
            Read::Overflow
        } else {
            Read::Done(v, p + k)
        }
    }
}

/// A number followed by the designator `unit` at `p`.
pub open spec fn unit_at(b: Seq<u8>, p: int, unit: u8) -> Read<nat> {
    match uint_at(b, p) {
        Read::Done(v, q) => if q < b.len() && b[q] == unit {
            Read::Done(v, q + 1)
        } else {
            Read::NoMatch
        },
        Read::NoMatch => Read::NoMatch,
        Read::Overflow => Read::Overflow,
    }
}

/// `dur-minute = 1*DIGIT "M" [dur-second]` at `p`.
pub open spec fn dur_minute_at(b: Seq<u8>, p: int) -> Read<(nat, nat)> {
    match unit_at(b, p, 77) {
        Read::Done(m, q) => match unit_at(b, q, 83) {
            Read::Done(s, r) => Read::Done((m, s), r),
            Read::NoMatch => Read::Done((m, 0), q),
            Read::Overflow => Read::Overflow,
        },
        Read::NoMatch => Read::NoMatch,
        Read::Overflow => Read::Overflow,
    }
}

/// `dur-hour = 1*DIGIT "H" [dur-minute]` at `p`.
pub open spec fn dur_hour_at(b: Seq<u8>, p: int) -> Read<(nat, nat, nat)> {
    match unit_at(b, p, 72) {
        Read::Done(h, q) => match dur_minute_at(b, q) {
            Read::Done((m, s), r) => Read::Done((h, m, s), r),
            Read::NoMatch => Read::Done((h, 0, 0), q),
            Read::Overflow => Read::Overflow,
        },
        Read::NoMatch => Read::NoMatch,
        Read::Overflow => Read::Overflow,
    }
}

/// `dur-time = "T" (dur-hour / dur-minute / dur-second)` at `p`: hours,
/// minutes and seconds, the first alternative that reads.
pub open spec fn dur_time_at(b: Seq<u8>, p: int) -> Read<(nat, nat, nat)> {
    if 0 <= p < b.len() && b[p] == 84 {
        match dur_hour_at(b, p + 1) {
            Read::NoMatch => match dur_minute_at(b, p + 1) {
                Read::Done((m, s), q) => Read::Done((0, m, s), q),
                Read::NoMatch => match unit_at(b, p + 1, 83) {
                    Read::Done(s, q) => Read::Done((0, 0, s), q),
                    Read::NoMatch => Read::NoMatch,
                    Read::Overflow => Read::Overflow,
                },
                Read::Overflow => Read::Overflow,
            },
            r => r,
        }
    } else {
        Read::NoMatch
    }
}

/// `dur-date = dur-day [dur-time]` at `p`.
pub open spec fn dur_date_at(b: Seq<u8>, p: int) -> Read<(nat, nat, nat, nat)> {
    match unit_at(b, p, 68) {
        Read::Done(d, q) => match dur_time_at(b, q) {
            Read::Done((h, m, s), r) => Read::Done((d, h, m, s), r),
            Read::NoMatch => Read::Done((d, 0, 0, 0), q),
            Read::Overflow => Read::Overflow,
        },
        Read::NoMatch => Read::NoMatch,
        Read::Overflow => Read::Overflow,
    }
}

/// The optional sign and the `P` of a duration: whether it is positive, and
/// where its parts start.
pub open spec fn dur_prefix(b: Seq<u8>) -> Option<(bool, int)> {
    let (positive, p) = if b.len() > 0 && (b[0] == 43 || b[0] == 45) {
        (b[0] != 45, 1int)
    } else {
        (true, 0int)
    };
    if p < b.len() && b[p] == 80 {
        Some((positive, p + 1))
    } else {
        None
    }
}

/// `dur-value = (["+"] / "-") "P" (dur-date / dur-time / dur-week)`, the
/// first alternative that reads, which must then end the input.
pub open spec fn duration_spec(b: Seq<u8>) -> Read<ValueDuration> {
    match dur_prefix(b) {
        None => Read::NoMatch,
        Some((positive, p)) => match dur_date_at(b, p) {
            Read::Overflow => Read::Overflow,
            Read::Done((d, h, m, s), q) => if q == b.len() {
                Read::Done(
                    ValueDuration::DateTime {
                        positive,
                        day: d as u32,
                        hour: h as u32,
                        minute: m as u32,
                        second: s as u32,
                    },
                    q,
                )
            } else {
                Read::NoMatch
            },
            Read::NoMatch => match dur_time_at(b, p) {
                Read::Overflow => Read::Overflow,
                Read::Done((h, m, s), q) => if q == b.len() {
                    Read::Done(
                        ValueDuration::DateTime {
                            positive,
                            day: 0,
                            hour: h as u32,
                            minute: m as u32,
                            second: s as u32,
                        },
                        q,
                    )
                } else {
                    Read::NoMatch
                },
                Read::NoMatch => match unit_at(b, p, 87) {
                    Read::Overflow => Read::Overflow,
                    Read::Done(w, q) => if q == b.len() {
                        Read::Done(ValueDuration::Week { positive, week: w as u32 }, q)
                    } else {
                        Read::NoMatch
                    },
                    Read::NoMatch => Read::NoMatch,
                },
            },
        },
    }
}

proof fn lemma_run_len(b: Seq<u8>, p: int, cap: nat, k: nat)
    requires
        0 <= p,
        k <= cap,
        p + k <= b.len(),
        forall|j: int| 0 <= j < k ==> is_digit(#[trigger] b[p + j]),
        k == cap || p + k >= b.len() || !is_digit(b[p + k]),
    ensures
        run_len(b, p, cap) == k,
    decreases k,
{
    if k > 0 {
        assert(is_digit(b[p + 0]));
        assert forall|j: int| 0 <= j < k - 1 implies is_digit(#[trigger] b[(p + 1) + j]) by {
            assert(is_digit(b[p + (j + 1)]));
        }
        lemma_run_len(b, p + 1, (cap - 1) as nat, (k - 1) as nat);
    }
}

/// The outcome of reading a part of a value: the part and the position
/// after it, no match, or a number too large.
pub enum Step<T> {
    /// The part was read, up to the position
    Done(T, usize),
    /// The bytes there do not spell the part
    NoMatch,
    /// A number there is too large
    Overflow,
}

/// A step that agrees with a read, its values compared as integers by `eq`.
pub open spec fn step_agrees<T, U>(s: Step<T>, r: Read<U>, eq: spec_fn(T, U) -> bool) -> bool {
    match (s, r) {
        (Step::Done(x, p), Read::Done(y, q)) => eq(x, y) && p == q,
        (Step::NoMatch, Read::NoMatch) => true,
        (Step::Overflow, Read::Overflow) => true,
        _ => false,
    }
}

/// Read a number of one to ten digits.
fn read_uint(b: &[u8], p: usize) -> (r: Step<u32>)
    requires
        p <= b@.len(),
    ensures
        step_agrees(r, uint_at(b@, p as int), |x: u32, y: nat| x == y),
{
    let n = b.len();
    let mut k: usize = 0;
    let mut acc: u64 = 0;
    while k < 10 && p + k < n && b[p + k] >= 48u8 && b[p + k] <= 57u8
        invariant
            n == b@.len(),
            p <= n,
            k <= 10,
            p + k <= n,
            forall|j: int| 0 <= j < k ==> is_digit(#[trigger] b@[p + j]),
            acc == digits_value(b@.subrange(p as int, (p + k) as int)),
            acc < pow10(k as nat),
        decreases 10 - k,
    {
        assert(b@.subrange(p as int, (p + k + 1) as int).drop_last() =~= b@.subrange(p as int, (p + k) as int));
        proof {
            reveal_with_fuel(pow10, 11);
        }
        acc = acc * 10 + (b[p + k] - 48u8) as u64;
        k = k + 1;
    }
    proof {
        lemma_run_len(b@, p as int, 10, k as nat);
    }
    if k == 0 {
        return Step::NoMatch;
    }
    if acc > 4294967295 {
        return Step::Overflow;
    }
    Step::Done(acc as u32, p + k)
}

/// Read a number and its designator.
fn read_unit(b: &[u8], p: usize, unit: u8) -> (r: Step<u32>)
    requires
        p <= b@.len(),
    ensures
        step_agrees(r, unit_at(b@, p as int, unit), |x: u32, y: nat| x == y),
{
    match read_uint(b, p) {
        Step::Done(v, q) => {
            if q < b.len() && b[q] == unit {
                Step::Done(v, q + 1)
            } else {
                Step::NoMatch
            }
        },
        Step::NoMatch => Step::NoMatch,
        Step::Overflow => Step::Overflow,
    }
}

fn read_dur_minute(b: &[u8], p: usize) -> (r: Step<(u32, u32)>)
    requires
        p <= b@.len(),
    ensures
        step_agrees(r, dur_minute_at(b@, p as int), |x: (u32, u32), y: (nat, nat)| x.0 == y.0 && x.1 == y.1),
{
    match read_unit(b, p, 77u8) {
        Step::Done(m, q) => match read_unit(b, q, 83u8) {
            Step::Done(s, r) => Step::Done((m, s), r),
            Step::NoMatch => Step::Done((m, 0), q),
            Step::Overflow => Step::Overflow,
        },
        Step::NoMatch => Step::NoMatch,
        Step::Overflow => Step::Overflow,
    }
}

fn read_dur_hour(b: &[u8], p: usize) -> (r: Step<(u32, u32, u32)>)
    requires
        p <= b@.len(),
    ensures
        step_agrees(
            r,
            dur_hour_at(b@, p as int),
            |x: (u32, u32, u32), y: (nat, nat, nat)| x.0 == y.0 && x.1 == y.1 && x.2 == y.2,
        ),
{
    match read_unit(b, p, 72u8) {
        Step::Done(h, q) => match read_dur_minute(b, q) {
            Step::Done((m, s), r) => Step::Done((h, m, s), r),
            Step::NoMatch => Step::Done((h, 0, 0), q),
            Step::Overflow => Step::Overflow,
        },
        Step::NoMatch => Step::NoMatch,
        Step::Overflow => Step::Overflow,
    }
}

fn read_dur_time(b: &[u8], p: usize) -> (r: Step<(u32, u32, u32)>)
    requires
        p <= b@.len(),
    ensures
        step_agrees(
            r,
            dur_time_at(b@, p as int),
            |x: (u32, u32, u32), y: (nat, nat, nat)| x.0 == y.0 && x.1 == y.1 && x.2 == y.2,
        ),
{
    if p < b.len() && b[p] == 84u8 {
        match read_dur_hour(b, p + 1) {
            Step::NoMatch => match read_dur_minute(b, p + 1) {
                Step::Done((m, s), q) => Step::Done((0, m, s), q),
                Step::NoMatch => match read_unit(b, p + 1, 83u8) {
                    Step::Done(s, q) => Step::Done((0, 0, s), q),
                    Step::NoMatch => Step::NoMatch,
                    Step::Overflow => Step::Overflow,
                },
                Step::Overflow => Step::Overflow,
            },
            r => r,
        }
    } else {
        Step::NoMatch
    }
}

fn read_dur_date(b: &[u8], p: usize) -> (r: Step<(u32, u32, u32, u32)>)
    requires
        p <= b@.len(),
    ensures
        step_agrees(
            r,
            dur_date_at(b@, p as int),
            |x: (u32, u32, u32, u32), y: (nat, nat, nat, nat)|
                x.0 == y.0 && x.1 == y.1 && x.2 == y.2 && x.3 == y.3,
        ),
{
    match read_unit(b, p, 68u8) {
        Step::Done(d, q) => match read_dur_time(b, q) {
            Step::Done((h, m, s), r) => Step::Done((d, h, m, s), r),
            Step::NoMatch => Step::Done((d, 0, 0, 0), q),
            Step::Overflow => Step::Overflow,
        },
        Step::NoMatch => Step::NoMatch,
        Step::Overflow => Step::Overflow,
    }
}

/// Parse the bytes of a `DURATION` value, reporting a number too large for
/// `u32` apart from other failures.
pub fn parse_duration(b: &[u8]) -> (r: Step<ValueDuration>)
    ensures
        step_agrees(r, duration_spec(b@), |x: ValueDuration, y: ValueDuration| x == y),
{
    let n = b.len();
    let (positive, p): (bool, usize) = if n > 0 && (b[0] == 43u8 || b[0] == 45u8) {
        (b[0] != 45u8, 1)
    } else {
        (true, 0)
    };
    if !(p < n && b[p] == 80u8) {
        return Step::NoMatch;
    }
    let p = p + 1;
    match read_dur_date(b, p) {
        Step::Done((day, hour, minute, second), q) => {
            if q == n {
                Step::Done(ValueDuration::DateTime { positive, day, hour, minute, second }, q)
            } else {
                Step::NoMatch
            }
        },
        Step::Overflow => Step::Overflow,
        Step::NoMatch => match read_dur_time(b, p) {
            Step::Done((hour, minute, second), q) => {
                if q == n {
                    Step::Done(ValueDuration::DateTime { positive, day: 0, hour, minute, second }, q)
                } else {
                    Step::NoMatch
                }
            },
            Step::Overflow => Step::Overflow,
            Step::NoMatch => match read_unit(b, p, 87u8) {
                Step::Done(week, q) => {
                    if q == n {
                        Step::Done(ValueDuration::Week { positive, week }, q)
                    } else {
                        Step::NoMatch
                    }
                },
                Step::Overflow => Step::Overflow,
                Step::NoMatch => Step::NoMatch,
            },
        },
    }
}

/// Parse a `DURATION` value. An input with a number of one to ten digits
/// that does not fit in `u32` where a number is read is outside the domain
/// of this parser.
pub fn property_value_duration(src: &str) -> (r: Option<ValueDuration>)
    requires
        !(duration_spec(src.spec_bytes()) is Overflow),
    ensures
        match duration_spec(src.spec_bytes()) {
            Read::Done(d, _) => r == Some(d),
            _ => r is None,
        },
{
    match parse_duration(src.as_bytes()) {
        Step::Done(d, _) => Some(d),
        _ => None,
    }
}

// ---------------------------------------------------------------------------
// DATE-TIME (RFC 5545 Section 3.3.5) and lists of values
// ---------------------------------------------------------------------------

/// `date-time = date "T" time`, the date being a day of the calendar.
pub open spec fn datetime_spec(b: Seq<u8>) -> Option<ValueDateTime> {
    if b.len() >= 9 && b[8] == 84 {
        match (valid_date_spec(b.take(8)), time_spec(b.skip(9))) {
            (Some(d), Some(t)) => Some(ValueDateTime { date: d, time: t }),
            _ => None,
        }
    } else {
        None
    }
}

/// The bytes from `i` to `j`.
fn sub_bytes(b: &[u8], i: usize, j: usize) -> (r: Vec<u8>)
    requires
        i <= j <= b@.len(),
    ensures
        r@ == b@.subrange(i as int, j as int),
{
    let mut out: Vec<u8> = Vec::new();
    let mut k: usize = i;
    while k < j
        invariant
            i <= k <= j <= b@.len(),
            out@ == b@.subrange(i as int, k as int),
        decreases j - k,
    {
        out.push(b[k]);
        k = k + 1;
        assert(out@ =~= b@.subrange(i as int, k as int));
    }
    out
}

/// Parse the bytes of a `DATE-TIME` value.
pub fn parse_datetime(b: &[u8]) -> (r: Option<ValueDateTime>)
    ensures
        r == datetime_spec(b@),
{
    if b.len() < 9 || b[8] != 84u8 {
        return None;
    }
    let d = sub_bytes(b, 0, 8);
    let t = sub_bytes(b, 9, b.len());
    assert(d@ =~= b@.take(8));
    assert(t@ =~= b@.skip(9));
    match (parse_date(d.as_slice()), parse_time(t.as_slice())) {
        (Some(date), Some(time)) => Some(ValueDateTime { date, time }),
        _ => None,
    }
}

/// The bytes split at each comma, in order; the commas are dropped.
pub open spec fn split_commas(b: Seq<u8>) -> Seq<Seq<u8>>
    decreases b.len(),
{
    if b.len() == 0 {
        seq![Seq::empty()]
    } else {
        let prev = split_commas(b.drop_last());
        if b.last() == 44 {
            prev.push(Seq::empty())
        } else {
            prev.update(prev.len() - 1, prev.last().push(b.last()))
        }
    }
}

proof fn lemma_split_commas_len(b: Seq<u8>)
    ensures
        split_commas(b).len() >= 1,
    decreases b.len(),
{
    if b.len() > 0 {
        lemma_split_commas_len(b.drop_last());
    }
}

/// The contents of byte vectors.
pub open spec fn byte_views(v: Seq<Vec<u8>>) -> Seq<Seq<u8>> {
    v.map_values(|x: Vec<u8>| x@)
}

/// Split bytes at each comma.
pub(crate) fn split_bytes_at_commas(b: &[u8]) -> (r: Vec<Vec<u8>>)
    ensures
        byte_views(r@) == split_commas(b@),
{
    let mut parts: Vec<Vec<u8>> = Vec::new();
    let mut cur: Vec<u8> = Vec::new();
    let mut i: usize = 0;
    assert(b@.take(0) =~= Seq::<u8>::empty());
    while i < b.len()
        invariant
            0 <= i <= b@.len(),
            byte_views(parts@).push(cur@) == split_commas(b@.take(i as int)),
        decreases b@.len() - i,
    {
        let ghost pre = b@.take(i as int);
        assert(b@.take(i + 1).drop_last() =~= pre);
        proof {
            lemma_split_commas_len(pre);
        }
        let c = b[i];
        if c == 44u8 {
            let ghost old_parts = byte_views(parts@);
            let ghost old_cur = cur@;
            parts.push(cur);
            cur = Vec::new();
            assert(byte_views(parts@) =~= old_parts.push(old_cur));
            assert(byte_views(parts@).push(cur@) =~= split_commas(b@.take(i + 1)));
        } else {
            let ghost old_parts = byte_views(parts@);
            cur.push(c);
            assert(byte_views(parts@).push(cur@) =~= split_commas(b@.take(i + 1)));
        }
        i = i + 1;
    }
    assert(b@.take(i as int) =~= b@);
    let ghost old_parts = byte_views(parts@);
    let ghost old_cur = cur@;
    parts.push(cur);
    assert(byte_views(parts@) =~= old_parts.push(old_cur));
    parts
}

/// Every part parsed by `f`, or `None` when one fails.
pub open spec fn all_parse<T>(parts: Seq<Seq<u8>>, f: spec_fn(Seq<u8>) -> Option<T>) -> Option<Seq<T>>
    decreases parts.len(),
{
    if parts.len() == 0 {
        Some(Seq::empty())
    } else {
        match (all_parse(parts.drop_last(), f), f(parts.last())) {
            (Some(xs), Some(x)) => Some(xs.push(x)),
            _ => None,
        }
    }
}

/// A duration that reads, without overflow.
pub open spec fn duration_opt(b: Seq<u8>) -> Option<ValueDuration> {
    match duration_spec(b) {
        Read::Done(d, _) => Some(d),
        _ => None,
    }
}

/// The parser `integer_spec` as a function value.
pub open spec fn integer_parser() -> spec_fn(Seq<u8>) -> Option<i32> {
    |b: Seq<u8>| integer_spec(b)
}

/// The parser `duration_opt` as a function value.
pub open spec fn duration_parser() -> spec_fn(Seq<u8>) -> Option<ValueDuration> {
    |b: Seq<u8>| duration_opt(b)
}

/// The parser `valid_date_spec` as a function value.
pub open spec fn date_parser() -> spec_fn(Seq<u8>) -> Option<ValueDate> {
    |b: Seq<u8>| valid_date_spec(b)
}

/// The parser `datetime_spec` as a function value.
pub open spec fn datetime_parser() -> spec_fn(Seq<u8>) -> Option<ValueDateTime> {
    |b: Seq<u8>| datetime_spec(b)
}

/// The parser `time_spec` as a function value.
pub open spec fn time_parser() -> spec_fn(Seq<u8>) -> Option<ValueTime> {
    |b: Seq<u8>| time_spec(b)
}

/// Once a prefix of the parts fails, so do all of them.
proof fn lemma_all_parse_none<T>(parts: Seq<Seq<u8>>, f: spec_fn(Seq<u8>) -> Option<T>, k: int)
    requires
        0 <= k <= parts.len(),
        all_parse(parts.take(k), f) is None,
    ensures
        all_parse(parts, f) is None,
    decreases parts.len() - k,
{
    if k < parts.len() {
        assert(parts.take(k + 1).drop_last() =~= parts.take(k));
        lemma_all_parse_none(parts, f, k + 1);
    } else {
        assert(parts.take(k) =~= parts);
    }
}

/// Parse each part, all or nothing.
pub(crate) fn parse_integers(parts: &Vec<Vec<u8>>) -> (r: Option<Vec<i32>>)
    ensures
        match (r, all_parse(byte_views(parts@), integer_parser())) {
            (Some(v), Some(xs)) => v@ == xs,
            (None, None) => true,
            _ => false,
        },
{
    let ghost ps = byte_views(parts@);
    let ghost f = integer_parser();
    let mut out: Vec<i32> = Vec::new();
    let mut i: usize = 0;
    assert(ps.take(0) =~= Seq::<Seq<u8>>::empty());
    while i < parts.len()
        invariant
            ps == byte_views(parts@),
            f == integer_parser(),
            0 <= i <= parts@.len(),
            all_parse(ps.take(i as int), f) == Some(out@),
        decreases parts@.len() - i,
    {
        assert(ps.take(i + 1).drop_last() =~= ps.take(i as int));
        assert(ps.take(i + 1).last() == parts@[i as int]@);
        let slice = parts[i].as_slice();
        let x = parse_integer(slice);
        match x {
            Some(v) => {
                out.push(v);
            },
            None => {
                proof {
                    assert(ps[i as int] == parts@[i as int]@);
                    assert(f(ps[i as int]) is None);
                    assert(all_parse(ps.take(i + 1), f) is None);
                    lemma_all_parse_none(ps, f, i + 1);
                }
                return None;
            },
        }
        i = i + 1;
    }
    assert(ps.take(i as int) =~= ps);
    Some(out)
}

/// Check each part as a `FLOAT`, all or nothing, keeping the bytes of each.
pub(crate) fn parse_floats(parts: &Vec<Vec<u8>>) -> (r: Option<Vec<Vec<u8>>>)
    ensures
        match (r, all_parse(byte_views(parts@), float_parser())) {
            (Some(v), Some(xs)) => byte_views(v@) == xs,
            (None, None) => true,
            _ => false,
        },
{
    let ghost ps = byte_views(parts@);
    let ghost f = float_parser();
    let mut out: Vec<Vec<u8>> = Vec::new();
    let mut i: usize = 0;
    assert(ps.take(0) =~= Seq::<Seq<u8>>::empty());
    assert(byte_views(out@) =~= Seq::<Seq<u8>>::empty());
    while i < parts.len()
        invariant
            ps == byte_views(parts@),
            f == float_parser(),
            0 <= i <= parts@.len(),
            all_parse(ps.take(i as int), f) == Some(byte_views(out@)),
        decreases parts@.len() - i,
    {
        assert(ps.take(i + 1).drop_last() =~= ps.take(i as int));
        assert(ps.take(i + 1).last() == parts@[i as int]@);
        let slice = parts[i].as_slice();
        if check_float(slice) {
            let ghost before = out@;
            out.push(vstd::slice::slice_to_vec(slice));
            assert(byte_views(out@) =~= byte_views(before).push(parts@[i as int]@));
        } else {
            proof {
                assert(ps[i as int] == parts@[i as int]@);
                assert(f(ps[i as int]) is None);
                assert(all_parse(ps.take(i + 1), f) is None);
                lemma_all_parse_none(ps, f, i + 1);
            }
            return None;
        }
        i = i + 1;
    }
    assert(ps.take(i as int) =~= ps);
    Some(out)
}

/// Parse each part, all or nothing.
pub(crate) fn parse_durations(parts: &Vec<Vec<u8>>) -> (r: Option<Vec<ValueDuration>>)
    ensures
        match (r, all_parse(byte_views(parts@), duration_parser())) {
            (Some(v), Some(xs)) => v@ == xs,
            (None, None) => true,
            _ => false,
        },
{
    let ghost ps = byte_views(parts@);
    let ghost f = duration_parser();
    let mut out: Vec<ValueDuration> = Vec::new();
    let mut i: usize = 0;
    assert(ps.take(0) =~= Seq::<Seq<u8>>::empty());
    while i < parts.len()
        invariant
            ps == byte_views(parts@),
            f == duration_parser(),
            0 <= i <= parts@.len(),
            all_parse(ps.take(i as int), f) == Some(out@),
        decreases parts@.len() - i,
    {
        assert(ps.take(i + 1).drop_last() =~= ps.take(i as int));
        assert(ps.take(i + 1).last() == parts@[i as int]@);
        let slice = parts[i].as_slice();
        let x = match parse_duration(slice) {
            Step::Done(d, _) => Some(d),
            _ => None,
        };
        match x {
            Some(v) => {
                out.push(v);
            },
            None => {
                proof {
                    assert(ps[i as int] == parts@[i as int]@);
                    assert(f(ps[i as int]) is None);
                    assert(all_parse(ps.take(i + 1), f) is None);
                    lemma_all_parse_none(ps, f, i + 1);
                }
                return None;
            },
        }
        i = i + 1;
    }
    assert(ps.take(i as int) =~= ps);
    Some(out)
}

/// Parse each part, all or nothing.
pub(crate) fn parse_dates(parts: &Vec<Vec<u8>>) -> (r: Option<Vec<ValueDate>>)
    ensures
        match (r, all_parse(byte_views(parts@), date_parser())) {
            (Some(v), Some(xs)) => v@ == xs,
            (None, None) => true,
            _ => false,
        },
{
    let ghost ps = byte_views(parts@);
    let ghost f = date_parser();
    let mut out: Vec<ValueDate> = Vec::new();
    let mut i: usize = 0;
    assert(ps.take(0) =~= Seq::<Seq<u8>>::empty());
    while i < parts.len()
        invariant
            ps == byte_views(parts@),
            f == date_parser(),
            0 <= i <= parts@.len(),
            all_parse(ps.take(i as int), f) == Some(out@),
        decreases parts@.len() - i,
    {
        assert(ps.take(i + 1).drop_last() =~= ps.take(i as int));
        assert(ps.take(i + 1).last() == parts@[i as int]@);
        let slice = parts[i].as_slice();
        let x = parse_date(slice);
        match x {
            Some(v) => {
                out.push(v);
            },
            None => {
                proof {
                    assert(ps[i as int] == parts@[i as int]@);
                    assert(f(ps[i as int]) is None);
                    assert(all_parse(ps.take(i + 1), f) is None);
                    lemma_all_parse_none(ps, f, i + 1);
                }
                return None;
            },
        }
        i = i + 1;
    }
    assert(ps.take(i as int) =~= ps);
    Some(out)
}

/// Parse each part, all or nothing.
pub(crate) fn parse_datetimes(parts: &Vec<Vec<u8>>) -> (r: Option<Vec<ValueDateTime>>)
    ensures
        match (r, all_parse(byte_views(parts@), datetime_parser())) {
            (Some(v), Some(xs)) => v@ == xs,
            (None, None) => true,
            _ => false,
        },
{
    let ghost ps = byte_views(parts@);
    let ghost f = datetime_parser();
    let mut out: Vec<ValueDateTime> = Vec::new();
    let mut i: usize = 0;
    assert(ps.take(0) =~= Seq::<Seq<u8>>::empty());
    while i < parts.len()
        invariant
            ps == byte_views(parts@),
            f == datetime_parser(),
            0 <= i <= parts@.len(),
            all_parse(ps.take(i as int), f) == Some(out@),
        decreases parts@.len() - i,
    {
        assert(ps.take(i + 1).drop_last() =~= ps.take(i as int));
        assert(ps.take(i + 1).last() == parts@[i as int]@);
        let slice = parts[i].as_slice();
        let x = parse_datetime(slice);
        match x {
            Some(v) => {
                out.push(v);
            },
            None => {
                proof {
                    assert(ps[i as int] == parts@[i as int]@);
                    assert(f(ps[i as int]) is None);
                    assert(all_parse(ps.take(i + 1), f) is None);
                    lemma_all_parse_none(ps, f, i + 1);
                }
                return None;
            },
        }
        i = i + 1;
    }
    assert(ps.take(i as int) =~= ps);
    Some(out)
}

/// Parse each part, all or nothing.
pub(crate) fn parse_times(parts: &Vec<Vec<u8>>) -> (r: Option<Vec<ValueTime>>)
    ensures
        match (r, all_parse(byte_views(parts@), time_parser())) {
            (Some(v), Some(xs)) => v@ == xs,
            (None, None) => true,
            _ => false,
        },
{
    let ghost ps = byte_views(parts@);
    let ghost f = time_parser();
    let mut out: Vec<ValueTime> = Vec::new();
    let mut i: usize = 0;
    assert(ps.take(0) =~= Seq::<Seq<u8>>::empty());
    while i < parts.len()
        invariant
            ps == byte_views(parts@),
            f == time_parser(),
            0 <= i <= parts@.len(),
            all_parse(ps.take(i as int), f) == Some(out@),
        decreases parts@.len() - i,
    {
        assert(ps.take(i + 1).drop_last() =~= ps.take(i as int));
        assert(ps.take(i + 1).last() == parts@[i as int]@);
        let slice = parts[i].as_slice();
        let x = parse_time(slice);
        match x {
            Some(v) => {
                out.push(v);
            },
            None => {
                proof {
                    assert(ps[i as int] == parts@[i as int]@);
                    assert(f(ps[i as int]) is None);
                    assert(all_parse(ps.take(i + 1), f) is None);
                    lemma_all_parse_none(ps, f, i + 1);
                }
                return None;
            },
        }
        i = i + 1;
    }
    assert(ps.take(i as int) =~= ps);
    Some(out)
}

} // verus!
