//! Decimal rendering of integers and of fixed-point sensor values.
use vstd::prelude::*;

verus! {

/// The character of one decimal digit.
pub open spec fn digit_char(d: nat) -> char {
    if d == 0 {
        '0'
    } else if d == 1 {
        '1'
    } else if d == 2 {
        '2'
    } else if d == 3 {
        '3'
    } else if d == 4 {
        '4'
    } else if d == 5 {
        '5'
    } else if d == 6 {
        '6'
    } else if d == 7 {
        '7'
    } else if d == 8 {
        '8'
    } else {
        '9'
    }
}

/// The decimal digits of `n`, most significant first, without leading zeros.
pub open spec fn decimal_text(n: nat) -> Seq<char>
    decreases n,
{
    if n < 10 {
        seq![digit_char(n)]
    } else {
        decimal_text(n / 10) + seq![digit_char(n % 10)]
    }
}

/// Sensor values and thresholds are fixed-point numbers counted in thousandths.
pub const SCALE: i64 = 1000;

/// A fixed-point value in thousandths, written with three decimals ("-12.050").
pub open spec fn fixed_text(v: int) -> Seq<char> {
    let m = if v < 0 { -v } else { v };
    let frac = m % 1000;
    (if v < 0 { seq!['-'] } else { Seq::empty() }) + decimal_text((m / 1000) as nat) + seq![
        '.',
        digit_char((frac / 100) as nat),
        digit_char((frac / 10 % 10) as nat),
        digit_char((frac % 10) as nat),
    ]
}

fn append_digit(s: &mut String, d: u128)
    requires
        d < 10,
    ensures
        final(s)@ == old(s)@ + seq![digit_char(d as nat)],
{
    let t: &str = if d == 0 {
        "0"
    } else if d == 1 {
        "1"
    } else if d == 2 {
        "2"
    } else if d == 3 {
        "3"
    } else if d == 4 {
        "4"
    } else if d == 5 {
        "5"
    } else if d == 6 {
        "6"
    } else if d == 7 {
        "7"
    } else if d == 8 {
        "8"
    } else {
        "9"
    };
    proof {
        reveal_strlit("0");
        reveal_strlit("1");
        reveal_strlit("2");
        reveal_strlit("3");
        reveal_strlit("4");
        reveal_strlit("5");
        reveal_strlit("6");
        reveal_strlit("7");
        reveal_strlit("8");
        reveal_strlit("9");
        assert(t@ =~= seq![digit_char(d as nat)]);
    }
    s.append(t);
}

/// Appends the decimal digits of `n`.
pub fn append_decimal(s: &mut String, n: u128)
    ensures
        final(s)@ == old(s)@ + decimal_text(n as nat),
    decreases n,
{
    if n < 10 {
        append_digit(s, n);
    } else {
        append_decimal(s, n / 10);
        append_digit(s, n % 10);
        assert(final(s)@ =~= old(s)@ + decimal_text(n as nat));
    }
}

/// Appends a fixed-point value in thousandths with three decimals.
pub fn append_fixed(s: &mut String, v: i128)
    requires
        v > i128::MIN,
    ensures
        final(s)@ == old(s)@ + fixed_text(v as int),
{
    let m: u128 = if v < 0 {
        s.append("-");
        proof {
            reveal_strlit("-");
        }
        (0 - v) as u128
    } else {
        v as u128
    };
    let frac: u128 = m % 1000;
    append_decimal(s, m / 1000);
    s.append(".");
    proof {
        reveal_strlit(".");
    }
    append_digit(s, frac / 100);
    append_digit(s, frac / 10 % 10);
    append_digit(s, frac % 10);
    assert(final(s)@ =~= old(s)@ + fixed_text(v as int));
}

} // verus!
