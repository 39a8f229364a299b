//! How durations are written.

use vstd::prelude::*;

use crate::text::chars::{concat2, concat3, concat4};
use crate::text::number;
use crate::text::number::decimal;

verus! {

/// 2^53: the binary digits of a floating-point number write no number beyond
/// it.
pub const BINARY_LIMIT: u128 = 9_007_199_254_740_992;

/// 2^82: how many parts of a second are told apart. The floating-point number
/// nearest to any number of nanoseconds is a whole number of such parts.
pub const PARTS: u128 = 4_835_703_278_458_516_698_824_704;

/// `n / d` to the nearest whole number, and from a half to the even one.
pub open spec fn nearest_spec(n: int, d: int) -> int {
    let q = n / d;
    let twice = 2 * (n % d);
    if twice < d || (twice == d && q % 2 == 0) {
        q
    } else {
        q + 1
    }
}

/// `n / unit` to the nearest whole number, times `weight`, where 53 binary
/// digits write it; the unit and its weight are doubled until they do.
pub open spec fn binary_from(n: int, unit: int, weight: int) -> int
    decreases n - unit,
{
    if unit <= 0 || n < unit * BINARY_LIMIT {
        nearest_spec(n, unit) * weight
    } else {
        binary_from(n, 2 * unit, 2 * weight)
    }
}

/// `n / d` to the nearest floating-point number of 53 binary digits.
pub open spec fn binary_spec(n: int, d: int) -> int {
    binary_from(n, d, 1)
}

/// The seconds of a duration as a floating-point number, in parts of a second:
/// the fraction of a second is rounded first, and then its sum with the whole
/// seconds.
pub open spec fn seconds_spec(ns: u64) -> int {
    let fraction = binary_spec((ns % 1_000_000_000) * PARTS, 1_000_000_000);
    binary_spec((ns / 1_000_000_000) * PARTS + fraction, 1)
}

/// The seconds of a duration as a floating-point number that is written with
/// one decimal.
pub open spec fn tenths_spec(ns: u64) -> Seq<char> {
    let t = nearest_spec(10 * seconds_spec(ns), PARTS as int);
    number::decimal_spec((t / 10) as nat) + "."@ + number::decimal_spec((t % 10) as nat)
}

fn nearest(n: u128, d: u128) -> (r: u128)
    requires
        0 < d <= PARTS,
        n <= 1_000_000_000_000 * PARTS,
    ensures
        r == nearest_spec(n as int, d as int),
        r * d <= n + d,
{
    let q: u128 = n / d;
    let twice: u128 = 2 * (n % d);
    proof {
        assert(q * d <= n) by (nonlinear_arith)
            requires
                q == n / d,
                d > 0,
        ;
        assert(q <= n) by (nonlinear_arith)
            requires
                q == n / d,
                d > 0,
        ;
        assert((q + 1) * d == q * d + d) by (nonlinear_arith);
    }
    if twice < d || (twice == d && q % 2 == 0) {
        q
    } else {
        q + 1
    }
}

fn binary(n: u128, d: u128) -> (r: u128)
    requires
        0 < d <= 1_000_000_000,
        n <= 20_000_000_000 * PARTS,
    ensures
        r == binary_spec(n as int, d as int),
        r * d <= 2 * n + d * BINARY_LIMIT,
{
    let mut unit: u128 = d;
    let mut weight: u128 = 1;
    while n >= unit * BINARY_LIMIT
        invariant
            0 < d <= 1_000_000_000,
            n <= 20_000_000_000 * PARTS,
            0 < unit,
            1 <= weight <= unit,
            unit == d * weight,
            unit == d || unit * BINARY_LIMIT <= 2 * n,
            binary_spec(n as int, d as int) == binary_from(n as int, unit as int, weight as int),
        decreases n - unit,
    {
        proof {
            assert(d * (2 * weight) == 2 * (d * weight)) by (nonlinear_arith);
        }
        unit = 2 * unit;
        weight = 2 * weight;
    }
    let q = nearest(n, unit);
    proof {
        assert(n / unit < BINARY_LIMIT) by (nonlinear_arith)
            requires
                n < unit * BINARY_LIMIT,
                unit > 0,
        ;
        assert(q <= BINARY_LIMIT);
        assert(q * weight <= BINARY_LIMIT * weight) by (nonlinear_arith)
            requires
                q <= BINARY_LIMIT,
                weight >= 0,
        ;
        assert((q * weight) * d <= BINARY_LIMIT * (d * weight)) by (nonlinear_arith)
            requires
                q * weight <= BINARY_LIMIT * weight,
                d > 0,
        ;
    }
    q * weight
}

/// Writes the seconds of a duration with one decimal, as a floating-point
/// number is written.
pub fn tenths(ns: u64) -> (r: String)
    ensures
        r@ == tenths_spec(ns),
{
    let nanos: u128 = (ns % 1_000_000_000) as u128;
    let secs: u128 = (ns / 1_000_000_000) as u128;
    let fraction = binary(nanos * PARTS, 1_000_000_000);
    assert(fraction <= 2 * PARTS + BINARY_LIMIT);
    let seconds = binary(secs * PARTS + fraction, 1);
    let t: u128 = nearest(10 * seconds, PARTS);
    assert(t <= 1_000_000_000_000);
    concat3(decimal((t / 10) as u64).as_str(), ".", decimal((t % 10) as u64).as_str())
}

/// The thousandths of a second behind the point, without zeros at the end.
pub open spec fn fraction_spec(thousandths: int) -> Seq<char> {
    let first = number::decimal_spec((thousandths / 100) as nat);
    let second = number::decimal_spec((thousandths / 10 % 10) as nat);
    let third = number::decimal_spec((thousandths % 10) as nat);
    if thousandths == 0 {
        Seq::empty()
    } else if thousandths % 100 == 0 {
        "."@ + first
    } else if thousandths % 10 == 0 {
        "."@ + first + second
    } else {
        "."@ + first + second + third
    }
}

/// A number of milliseconds, in seconds where it is one or more of them.
pub open spec fn millis_spec(millis: u64) -> Seq<char> {
    if millis >= 1000 {
        number::decimal_spec((millis / 1000) as nat) + fraction_spec((millis % 1000) as int)
            + "s"@
    } else if millis > 0 {
        number::decimal_spec(millis as nat) + "ms"@
    } else {
        "0ns"@
    }
}

fn fraction(thousandths: u64) -> (r: String)
    requires
        thousandths < 1000,
    ensures
        r@ == fraction_spec(thousandths as int),
{
    let first = decimal(thousandths / 100);
    let second = decimal(thousandths / 10 % 10);
    let third = decimal(thousandths % 10);
    if thousandths == 0 {
        let r = String::new();
        assert(r@ =~= Seq::empty());
        r
    } else if thousandths % 100 == 0 {
        concat2(".", first.as_str())
    } else if thousandths % 10 == 0 {
        concat3(".", first.as_str(), second.as_str())
    } else {
        concat4(".", first.as_str(), second.as_str(), third.as_str())
    }
}

/// Writes a number of milliseconds.
pub fn millis_text(millis: u64) -> (r: String)
    ensures
        r@ == millis_spec(millis),
{
    if millis >= 1000 {
        concat3(decimal(millis / 1000).as_str(), fraction(millis % 1000).as_str(), "s")
    } else if millis > 0 {
        concat2(decimal(millis).as_str(), "ms")
    } else {
        "0ns".to_owned()
    }
}

} // verus!
