//! Reading decimal integers as `str::parse` does for std's integer types:
//! an optional sign, then one digit or more, and a value in the type's range.
use vstd::prelude::*;
use crate::text::{chars_of, decimal, digit_char};

verus! {

pub open spec fn is_digit(c: char) -> bool {
    '0' <= c && c <= '9'
}

pub open spec fn all_digits(s: Seq<char>) -> bool {
    forall|i: int| 0 <= i < s.len() ==> is_digit(#[trigger] s[i])
}

/// The value of a string of decimal digits.
pub open spec fn digits_value(s: Seq<char>) -> int
    decreases s.len(),
{
    if s.len() == 0 {
        0
    } else {
        digits_value(s.drop_last()) * 10 + (s.last() as int - '0' as int)
    }
}

/// The integer a text writes in decimal: digits, after an optional '+' (or
/// '-', where `signed`); `None` for anything else.
pub open spec fn decimal_value(s: Seq<char>, signed: bool) -> Option<int> {
    if s.len() > 0 && (s[0] == '+' || (signed && s[0] == '-')) {
        let d = s.skip(1);
        if d.len() > 0 && all_digits(d) {
            Some(if s[0] == '-' { -digits_value(d) } else { digits_value(d) })
        } else {
            None
        }
    } else if s.len() > 0 && all_digits(s) {
        Some(digits_value(s))
    } else {
        None
    }
}

/// What `str::parse` gives for an integer type of range `min..=max`.
pub open spec fn parsed(s: Seq<char>, signed: bool, min: int, max: int) -> Option<int> {
    match decimal_value(s, signed) {
        Some(v) => if min <= v <= max { Some(v) } else { None },
        None => None,
    }
}

proof fn lemma_digits_value_nonneg(s: Seq<char>)
    requires
        all_digits(s),
    ensures
        digits_value(s) >= 0,
    decreases s.len(),
{
    if s.len() > 0 {
        assert(is_digit(s[s.len() - 1]));
        lemma_digits_value_nonneg(s.drop_last());
    }
}

/// The decimal writing of a number reads back as that number, with or
/// without a sign allowed.
pub proof fn lemma_decimal_reads_back(n: nat, signed: bool)
    ensures
        decimal(n).len() >= 1,
        all_digits(decimal(n)),
        digits_value(decimal(n)) == n,
        decimal_value(decimal(n), signed) == Some(n as int),
    decreases n,
{
    let d = decimal(n);
    if n < 10 {
        assert(d == seq![digit_char(n as int)]);
        assert(is_digit(d[0]));
        assert(d.drop_last() =~= Seq::<char>::empty());
        assert(digits_value(d.drop_last()) == 0);
        assert(d.last() == digit_char(n as int));
        assert(digit_char(n as int) as int - '0' as int == n);
        assert(digits_value(d) == n);
    } else {
        lemma_decimal_reads_back(n / 10, signed);
        let r = (n % 10) as int;
        let prefix = decimal(n / 10);
        assert(d == prefix.push(digit_char(r)));
        assert(d.drop_last() =~= prefix);
        assert(digit_char(r) as int - '0' as int == r);
        assert(is_digit(digit_char(r)));
        assert forall|i: int| 0 <= i < d.len() implies is_digit(#[trigger] d[i]) by {
            if i < prefix.len() {
                assert(d[i] == prefix[i]);
            }
        }
        assert(digits_value(d) == digits_value(prefix) * 10 + r);
        assert((n / 10) as int * 10 + r == n);
    }
    assert(is_digit(d[0]));
    assert(d[0] != '+' && d[0] != '-');
}

/// A longer string of digits has a value no smaller.
proof fn lemma_digits_value_grows(s: Seq<char>, k: int)
    requires
        all_digits(s),
        0 <= k <= s.len(),
    ensures
        digits_value(s.take(k)) <= digits_value(s),
    decreases s.len(),
{
    if k < s.len() {
        assert(s.take(k) =~= s.drop_last().take(k));
        lemma_digits_value_grows(s.drop_last(), k);
        lemma_digits_value_nonneg(s.drop_last());
        assert(is_digit(s[s.len() - 1]));
    } else {
        assert(s.take(k) =~= s);
    }
}

/// Beyond any range parsed here.
const TOO_BIG: i128 = 0x1_0000_0000_0000_0000;

/// The value of the digits `chars[start..]`, or `None` if there are none, if
/// one is not a digit, or if the value passes 2^64.
fn digits_from(chars: &Vec<char>, start: usize) -> (r: Option<i128>)
    requires
        start <= chars@.len(),
    ensures
        match r {
            Some(v) => {
                let d = chars@.skip(start as int);
                &&& d.len() > 0 && all_digits(d)
                &&& v == digits_value(d)
                &&& 0 <= v <= TOO_BIG
            },
            None => {
                let d = chars@.skip(start as int);
                d.len() == 0 || !all_digits(d) || digits_value(d) > TOO_BIG
            },
        },
{
    let ghost d = chars@.skip(start as int);
    if start == chars.len() {
        return None;
    }
    let mut acc: i128 = 0;
    let mut i: usize = start;
    while i < chars.len()
        invariant
            start <= i <= chars@.len(),
            d == chars@.skip(start as int),
            all_digits(d.take(i - start)),
            acc == digits_value(d.take(i - start)),
            0 <= acc <= TOO_BIG,
        decreases chars@.len() - i,
    {
        let c = chars[i];
        assert(d[i - start] == c);
        if !('0' <= c && c <= '9') {
            assert(!is_digit(d[i - start]));
            return None;
        }
        let digit: i128 = (c as u32 - '0' as u32) as i128;
        assert(d.take(i - start + 1).drop_last() =~= d.take(i - start));
        acc = acc * 10 + digit;
        assert(all_digits(d.take(i - start + 1)));
        if acc > TOO_BIG {
            proof {
                if all_digits(d) {
                    lemma_digits_value_grows(d, i - start + 1);
                }
            }
            return None;
        }
        i = i + 1;
    }
    assert(d.take(i - start) =~= d);
    Some(acc)
}

/// Reads a decimal integer in `min..=max`, with a '-' allowed where `signed`.
fn parse_in_range(s: &str, signed: bool, min: i128, max: i128) -> (r: Option<i128>)
    requires
        -TOO_BIG <= min,
        max <= TOO_BIG,
    ensures
        match r {
            Some(v) => parsed(s@, signed, min as int, max as int) == Some(v as int),
            None => parsed(s@, signed, min as int, max as int) is None,
        },
{
    let chars = chars_of(s);
    if chars.len() == 0 {
        return None;
    }
    let first = chars[0];
    let has_sign = first == '+' || (signed && first == '-');
    let start: usize = if has_sign { 1 } else { 0 };
    assert(chars@.skip(0) =~= s@);
    match digits_from(&chars, start) {
        Some(v) => {
            let value = if first == '-' { -v } else { v };
            if min <= value && value <= max {
                Some(value)
            } else {
                None
            }
        },
        None => None,
    }
}

/// `str::parse::<i64>`.
pub fn parse_i64(s: &str) -> (r: Option<i64>)
    ensures
        match r {
            Some(v) => parsed(s@, true, i64::MIN as int, i64::MAX as int) == Some(v as int),
            None => parsed(s@, true, i64::MIN as int, i64::MAX as int) is None,
        },
{
    match parse_in_range(s, true, i64::MIN as i128, i64::MAX as i128) {
        Some(v) => Some(v as i64),
        None => None,
    }
}

/// `str::parse::<i32>`.
pub fn parse_i32(s: &str) -> (r: Option<i32>)
    ensures
        match r {
            Some(v) => parsed(s@, true, i32::MIN as int, i32::MAX as int) == Some(v as int),
            None => parsed(s@, true, i32::MIN as int, i32::MAX as int) is None,
        },
{
    match parse_in_range(s, true, i32::MIN as i128, i32::MAX as i128) {
        Some(v) => Some(v as i32),
        None => None,
    }
}

/// `str::parse::<u32>`.
pub fn parse_u32(s: &str) -> (r: Option<u32>)
    ensures
        match r {
            Some(v) => parsed(s@, false, 0, u32::MAX as int) == Some(v as int),
            None => parsed(s@, false, 0, u32::MAX as int) is None,
        },
{
    match parse_in_range(s, false, 0, u32::MAX as i128) {
        Some(v) => Some(v as u32),
        None => None,
    }
}

/// `str::parse::<u64>`.
pub fn parse_u64(s: &str) -> (r: Option<u64>)
    ensures
        match r {
            Some(v) => parsed(s@, false, 0, u64::MAX as int) == Some(v as int),
            None => parsed(s@, false, 0, u64::MAX as int) is None,
        },
{
    match parse_in_range(s, false, 0, u64::MAX as i128) {
        Some(v) => Some(v as u64),
        None => None,
    }
}

} // verus!
