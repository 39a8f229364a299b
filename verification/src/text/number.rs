//! Decimal numbers.

use vstd::prelude::*;

use crate::text::chars::{concat2, from_range, to_chars};

verus! {

/// The value of the decimal digit `c`.
pub open spec fn digit_value(c: char) -> int {
    c as int - '0' as int
}

/// All characters of `s` are decimal digits.
pub open spec fn all_digits(s: Seq<char>) -> bool {
    forall|i: int| 0 <= i < s.len() ==> '0' <= #[trigger] s[i] <= '9'
}

/// The number that the digits `s` write.
pub open spec fn digits_value(s: Seq<char>) -> int
    decreases s.len(),
{
    if s.len() == 0 {
        0
    } else {
        10 * digits_value(s.drop_last()) + digit_value(s.last())
    }
}

/// `s` without one plus sign at its start.
pub open spec fn unsigned_digits(s: Seq<char>) -> Seq<char> {
    if s.len() > 0 && s[0] == '+' {
        s.subrange(1, s.len() as int)
    } else {
        s
    }
}

/// The unsigned number that `s` writes, where it is at most `max`: an
/// optional plus sign and one or more decimal digits.
pub open spec fn parse_spec(s: Seq<char>, max: int) -> Option<int> {
    let d = unsigned_digits(s);
    if d.len() > 0 && all_digits(d) && digits_value(d) <= max {
        Some(digits_value(d))
    } else {
        None
    }
}

/// More digits never make the number smaller.
pub proof fn lemma_digits_value_grows(s: Seq<char>, n: int)
    requires
        all_digits(s),
        0 <= n <= s.len(),
    ensures
        0 <= digits_value(s.take(n)) <= digits_value(s),
    decreases s.len(),
{
    if n < s.len() {
        assert(s.drop_last().take(n) =~= s.take(n));
        lemma_digits_value_grows(s.drop_last(), n);
    } else {
        assert(s.take(n) =~= s);
        if s.len() > 0 {
            lemma_digits_value_grows(s.drop_last(), s.len() - 1);
            assert(s.drop_last().take(s.len() - 1) =~= s.drop_last());
        }
    }
}

/// Reads an unsigned decimal number of at most `max`.
pub fn parse_u64_max(s: &str, max: u64) -> (r: Option<u64>)
    ensures
        r is Some <==> parse_spec(s@, max as int) is Some,
        r matches Some(n) ==> parse_spec(s@, max as int) == Some(n as int),
{
    let v = to_chars(s);
    let start: usize = if v.len() > 0 && v[0] == '+' {
        1
    } else {
        0
    };
    let ghost d = unsigned_digits(s@);
    assert(d =~= v@.subrange(start as int, v@.len() as int));
    if start == v.len() {
        return None;
    }
    let mut i: usize = start;
    let mut n: u64 = 0;
    let mut over: bool = false;
    while i < v.len()
        invariant
            start <= i <= v@.len(),
            v@ == s@,
            d == v@.subrange(start as int, v@.len() as int),
            d == unsigned_digits(s@),
            all_digits(d.take(i - start)),
            !over ==> n == digits_value(d.take(i - start)) && n <= max,
            over ==> digits_value(d.take(i - start)) > max,
        decreases v@.len() - i,
    {
        let c = v[i];
        let ghost k = i - start;
        assert(c == d[k]);
        if !('0' <= c && c <= '9') {
            assert(!all_digits(d));
            return None;
        }
        assert(d.take(k + 1).drop_last() =~= d.take(k));
        assert(all_digits(d.take(k + 1))) by {
            assert forall|j: int| 0 <= j < k + 1 implies '0' <= #[trigger] d.take(k + 1)[j]
                <= '9' by {
                if j < k {
                    assert(d.take(k + 1)[j] == d.take(k)[j]);
                }
            }
        }
        let x: u64 = (c as u32 - '0' as u32) as u64;
        if !over {
            if x > max || n > max / 10 || 10 * n > max - x {
                over = true;
            } else {
                n = 10 * n + x;
            }
        } else {
            assert(digits_value(d.take(k)) > max);
        }
        i = i + 1;
    }
    assert(d.take(v@.len() - start) =~= d);
    if over {
        None
    } else {
        Some(n)
    }
}

/// Reads a `u8`.
pub fn parse_u8(s: &str) -> (r: Option<u8>)
    ensures
        r is Some <==> parse_spec(s@, u8::MAX as int) is Some,
        r matches Some(n) ==> parse_spec(s@, u8::MAX as int) == Some(n as int),
{
    match parse_u64_max(s, u8::MAX as u64) {
        Some(n) => Some(n as u8),
        None => None,
    }
}

/// Reads a `u16`.
pub fn parse_u16(s: &str) -> (r: Option<u16>)
    ensures
        r is Some <==> parse_spec(s@, u16::MAX as int) is Some,
        r matches Some(n) ==> parse_spec(s@, u16::MAX as int) == Some(n as int),
{
    match parse_u64_max(s, u16::MAX as u64) {
        Some(n) => Some(n as u16),
        None => None,
    }
}

/// Reads a `u32`.
pub fn parse_u32(s: &str) -> (r: Option<u32>)
    ensures
        r is Some <==> parse_spec(s@, u32::MAX as int) is Some,
        r matches Some(n) ==> parse_spec(s@, u32::MAX as int) == Some(n as int),
{
    match parse_u64_max(s, u32::MAX as u64) {
        Some(n) => Some(n as u32),
        None => None,
    }
}

/// Reads a `u64`.
pub fn parse_u64(s: &str) -> (r: Option<u64>)
    ensures
        r is Some <==> parse_spec(s@, u64::MAX as int) is Some,
        r matches Some(n) ==> parse_spec(s@, u64::MAX as int) == Some(n as int),
{
    parse_u64_max(s, u64::MAX)
}

/// Reads a `usize`.
pub fn parse_usize(s: &str) -> (r: Option<usize>)
    ensures
        r is Some <==> parse_spec(s@, usize::MAX as int) is Some,
        r matches Some(n) ==> parse_spec(s@, usize::MAX as int) == Some(n as int),
{
    match parse_u64_max(s, usize::MAX as u64) {
        Some(n) => Some(n as usize),
        None => None,
    }
}

/// The signed number that `s` writes, where it lies between `min` and `max`:
/// an optional sign and one or more decimal digits.
pub open spec fn parse_between(s: Seq<char>, min: int, max: int) -> Option<int> {
    if s.len() > 0 && s[0] == '-' {
        let d = s.subrange(1, s.len() as int);
        if d.len() > 0 && all_digits(d) && digits_value(d) <= -min {
            Some(-digits_value(d))
        } else {
            None
        }
    } else {
        parse_spec(s, max)
    }
}

/// The `i64` that `s` writes.
pub open spec fn parse_signed_spec(s: Seq<char>) -> Option<int> {
    parse_between(s, i64::MIN as int, i64::MAX as int)
}

/// The `i32` that `s` writes.
pub open spec fn parse_i32_spec(s: Seq<char>) -> Option<int> {
    parse_between(s, i32::MIN as int, i32::MAX as int)
}

/// Reads an `i64`.
pub fn parse_i64(s: &str) -> (r: Option<i64>)
    ensures
        r is Some <==> parse_signed_spec(s@) is Some,
        r matches Some(n) ==> parse_signed_spec(s@) == Some(n as int),
{
    let v = to_chars(s);
    if v.len() > 0 && v[0] == '-' {
        let rest = from_range(&v, 1, v.len());
        let ghost d = s@.subrange(1, s@.len() as int);
        assert(rest@ == d);
        if v.len() > 1 && v[1] == '+' {
            assert(d[0] == '+');
            assert(!all_digits(d));
            return None;
        }
        assert(d.len() > 0 ==> d[0] == v@[1]);
        match parse_u64_max(rest.as_str(), 9_223_372_036_854_775_808) {
            Some(n) => {
                if n == 9_223_372_036_854_775_808 {
                    Some(i64::MIN)
                } else {
                    Some(-(n as i64))
                }
            },
            None => None,
        }
    } else {
        match parse_u64_max(s, i64::MAX as u64) {
            Some(n) => Some(n as i64),
            None => None,
        }
    }
}

/// Reads an `i32`.
pub fn parse_i32(s: &str) -> (r: Option<i32>)
    ensures
        r is Some <==> parse_i32_spec(s@) is Some,
        r matches Some(n) ==> parse_i32_spec(s@) == Some(n as int),
{
    proof {
        let d = if s@.len() > 0 && s@[0] == '-' {
            s@.subrange(1, s@.len() as int)
        } else {
            unsigned_digits(s@)
        };
        if all_digits(d) {
            lemma_digits_value_grows(d, 0);
        }
    }
    match parse_i64(s) {
        Some(n) => if i32::MIN as i64 <= n && n <= i32::MAX as i64 {
            Some(n as i32)
        } else {
            None
        },
        None => None,
    }
}

/// The decimal digit for `n`.
pub open spec fn digit_char(n: int) -> char {
    (n + '0' as int) as char
}

/// The decimal digits of `n`, without leading zeros.
pub open spec fn decimal_spec(n: nat) -> Seq<char>
    decreases n,
{
    if n < 10 {
        seq![digit_char(n as int)]
    } else {
        decimal_spec(n / 10).push(digit_char((n % 10) as int))
    }
}

/// The decimal digit for `n`.
fn digit(n: u64) -> (c: char)
    requires
        n < 10,
    ensures
        c == digit_char(n as int),
        '0' <= c <= '9',
{
    (n as u8 + 48) as char
}

/// Writes `n` in decimal.
pub fn decimal(n: u64) -> (s: String)
    ensures
        s@ == decimal_spec(n as nat),
    decreases n,
{
    if n < 10 {
        let mut s = String::new();
        s.push(digit(n));
        assert(s@ =~= decimal_spec(n as nat));
        s
    } else {
        let mut s = decimal(n / 10);
        s.push(digit(n % 10));
        s
    }
}

/// The decimal form of a number, with a minus sign where it is negative.
pub open spec fn signed_decimal_spec(n: int) -> Seq<char> {
    if n < 0 {
        "-"@ + decimal_spec((-n) as nat)
    } else {
        decimal_spec(n as nat)
    }
}

/// Writes `n` in decimal.
pub fn signed_decimal(n: i64) -> (s: String)
    ensures
        s@ == signed_decimal_spec(n as int),
{
    if n < 0 {
        let m: u64 = if n == i64::MIN {
            9_223_372_036_854_775_808
        } else {
            (-n) as u64
        };
        concat2("-", decimal(m).as_str())
    } else {
        decimal(n as u64)
    }
}

/// Writing a number in decimal and reading it again gives the number.
pub proof fn decimal_reads_back(n: nat)
    ensures
        decimal_spec(n).len() > 0,
        all_digits(decimal_spec(n)),
        digits_value(decimal_spec(n)) == n,
    decreases n,
{
    if n < 10 {
        reveal_with_fuel(digits_value, 2);
        assert(decimal_spec(n).drop_last() =~= Seq::<char>::empty());
    } else {
        decimal_reads_back(n / 10);
        assert(decimal_spec(n).drop_last() =~= decimal_spec(n / 10));
    }
}

/// Writing a number and parsing the text gives the number back wherever it
/// fits.
pub proof fn parse_of_decimal(n: nat, max: int)
    requires
        n <= max,
    ensures
        parse_spec(decimal_spec(n), max) == Some(n as int),
{
    decimal_reads_back(n);
    let d = decimal_spec(n);
    assert('0' <= d[0] <= '9');
}

} // verus!
