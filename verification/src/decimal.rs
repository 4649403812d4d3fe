//! Decimal rendering of unsigned quantities.
//!
//! Memory figures arrive in kilobytes.  Kilobyte output prints the raw
//! integer; megabyte and gigabyte output divide by 1024 or 1024x1024 and
//! print exactly two decimal places, rounding half away from zero.

use vstd::prelude::*;
use vstd::arithmetic::div_mod::lemma_fundamental_div_mod;
use vstd::arithmetic::div_mod::lemma_fundamental_div_mod_converse;
use vstd::arithmetic::div_mod::lemma_div_is_ordered_by_denominator;
use vstd::arithmetic::div_mod::lemma_div_is_ordered;

verus! {

/// Kilobytes per megabyte.
pub const KB_PER_MB: u64 = 1024;

/// Kilobytes per gigabyte.
pub const KB_PER_GB: u64 = 1048576;

/// The decimal digit character for a value below ten.
pub open spec fn digit_char(d: int) -> char {
    if d == 0 {
        '0'
    } else if d == 1 {
        '1'
    } else if d == 2 {
        '2'
    } else if d == 3 {
        '3'
    } else if d == 4 {
        '4'
    } else if d == 5 {
        '5'
    } else if d == 6 {
        '6'
    } else if d == 7 {
        '7'
    } else if d == 8 {
        '8'
    } else {
        '9'
    }
}

/// The ordinary decimal numeral of a non-negative integer: most significant
/// digit first, no sign, no leading zeros, a single `'0'` for zero.
pub open spec fn decimal_digits(n: int) -> Seq<char>
    decreases n,
{
    if n < 10 {
        seq![digit_char(n)]
    } else {
        decimal_digits(n / 10).push(digit_char(n % 10))
    }
}

/// A quantity scaled down by `d` and expressed in hundredths, rounding half
/// away from zero: the integer nearest to `100 * v / d`.
pub open spec fn scaled_centi(v: int, d: int) -> int {
    (100 * v + d / 2) / d
}

/// A non-negative number of hundredths written with exactly two decimal
/// places: `206` reads `"2.06"`.
pub open spec fn two_decimals(c: int) -> Seq<char> {
    decimal_digits(c / 100) + seq!['.', digit_char((c % 100) / 10), digit_char(c % 10)]
}

fn digit_str(d: u64) -> (s: &'static str)
    requires
        d < 10,
    ensures
        s@ == seq![digit_char(d as int)],
{
    proof {
        reveal_strlit("0");
        reveal_strlit("1");
        reveal_strlit("2");
        reveal_strlit("3");
        reveal_strlit("4");
        reveal_strlit("5");
        reveal_strlit("6");
        reveal_strlit("7");
        reveal_strlit("8");
        reveal_strlit("9");
    }
    let s: &'static str = if d == 0 {
        "0"
    } else if d == 1 {
        "1"
    } else if d == 2 {
        "2"
    } else if d == 3 {
        "3"
    } else if d == 4 {
        "4"
    } else if d == 5 {
        "5"
    } else if d == 6 {
        "6"
    } else if d == 7 {
        "7"
    } else if d == 8 {
        "8"
    } else {
        "9"
    };
    proof {
        assert(s@ =~= seq![digit_char(d as int)]);
    }
    s
}

/// Renders an unsigned integer as its decimal numeral.
pub fn u64_to_decimal(n: u64) -> (s: String)
    ensures
        s@ == decimal_digits(n as int),
    decreases n,
{
    if n < 10 {
        String::from_str(digit_str(n))
    } else {
        let mut s = u64_to_decimal(n / 10);
        s.append(digit_str(n % 10));
        proof {
            assert(s@ =~= decimal_digits(n as int));
        }
        s
    }
}

/// The scaled quantity splits into its whole part and a rounded fractional
/// part computed from the remainder alone.
proof fn lemma_scaled_centi_split(v: int, d: int)
    requires
        d > 0,
        v >= 0,
    ensures
        scaled_centi(v, d) == 100 * (v / d) + (100 * (v % d) + d / 2) / d,
{
    let whole = v / d;
    let rem = v % d;
    lemma_fundamental_div_mod(v, d);
    let q = (100 * rem + d / 2) / d;
    let r = (100 * rem + d / 2) % d;
    lemma_fundamental_div_mod(100 * rem + d / 2, d);
    assert(100 * v + d / 2 == (100 * whole + q) * d + r) by (nonlinear_arith)
        requires
            v == d * whole + rem,
            100 * rem + d / 2 == d * q + r,
    {}
    lemma_fundamental_div_mod_converse(100 * v + d / 2, d, 100 * whole + q, r);
}

/// The rounded fractional part never exceeds one whole unit.
proof fn lemma_frac_centi_bound(rem: int, d: int)
    requires
        d > 0,
        0 <= rem < d,
    ensures
        0 <= (100 * rem + d / 2) / d <= 100,
{
    let x = 100 * rem + d / 2;
    let h = d / 2;
    lemma_fundamental_div_mod(d, 2);
    assert(100 * rem + h <= 101 * d - 1) by (nonlinear_arith)
        requires
            0 <= rem <= d - 1,
            d > 0,
            0 <= h,
            2 * h <= d,
    {}
    lemma_div_is_ordered(0, x, d);
    lemma_div_is_ordered(x, 101 * d - 1, d);
    lemma_fundamental_div_mod_converse(101 * d - 1, d, 100, d - 1);
}

/// Computes `scaled_centi` of a kilobyte figure for a divisor of 1024
/// (megabytes) or 1024x1024 (gigabytes), exactly and without overflow.
pub fn scale_to_centi(v: u64, d: u64) -> (c: u64)
    requires
        d == KB_PER_MB || d == KB_PER_GB,
    ensures
        c == scaled_centi(v as int, d as int),
{
    let whole = v / d;
    let rem = v % d;
    let frac = (100 * rem + d / 2) / d;
    proof {
        lemma_scaled_centi_split(v as int, d as int);
        lemma_frac_centi_bound(rem as int, d as int);
        lemma_div_is_ordered_by_denominator(v as int, 1024, d as int);
        lemma_div_is_ordered(v as int, u64::MAX as int, 1024);
    }
    100 * whole + frac
}

/// Renders a number of hundredths with exactly two decimal places.
pub fn centi_to_decimal(c: u64) -> (s: String)
    ensures
        s@ == two_decimals(c as int),
{
    let mut s = u64_to_decimal(c / 100);
    s.append(".");
    s.append(digit_str((c % 100) / 10));
    s.append(digit_str(c % 10));
    proof {
        reveal_strlit(".");
        assert((c % 100) % 10 == c % 10) by (nonlinear_arith) {}
        assert(s@ =~= two_decimals(c as int));
    }
    s
}

} // verus!
