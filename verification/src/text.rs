//! Decimal text of integers and of fixed-point numbers.

use vstd::prelude::*;
use vstd::string::StringExecFns;
use crate::fixed::Fixed;

verus! {

/// The character of the digit `d`.
pub open spec fn digit_char(d: int) -> char {
    if d == 0 {
        '0'
    } else if d == 1 {
        '1'
    } else if d == 2 {
        '2'
    } else if d == 3 {
        '3'
    } else if d == 4 {
        '4'
    } else if d == 5 {
        '5'
    } else if d == 6 {
        '6'
    } else if d == 7 {
        '7'
    } else if d == 8 {
        '8'
    } else {
        '9'
    }
}

/// The decimal digits of `n`, without leading zeros.
pub open spec fn digits(n: nat) -> Seq<char>
    decreases n,
{
    if n < 10 {
        seq![digit_char(n as int)]
    } else {
        digits(n / 10).push(digit_char((n % 10) as int))
    }
}

/// The last `width` decimal digits of `n`, with leading zeros.
pub open spec fn padded(n: nat, width: nat) -> Seq<char>
    decreases width,
{
    if width == 0 {
        Seq::empty()
    } else {
        padded(n / 10, (width - 1) as nat).push(digit_char((n % 10) as int))
    }
}

/// The decimal text of `n`, with a minus sign where it is negative.
pub open spec fn decimal(n: int) -> Seq<char> {
    if n < 0 {
        seq!['-'] + digits((-n) as nat)
    } else {
        digits(n as nat)
    }
}

/// Ten to the power `k`, for `k` up to six.
pub open spec fn spec_tenth_power(k: nat) -> nat {
    if k == 0 {
        1
    } else if k == 1 {
        10
    } else if k == 2 {
        100
    } else if k == 3 {
        1_000
    } else if k == 4 {
        10_000
    } else if k == 5 {
        100_000
    } else {
        1_000_000
    }
}

/// The decimal text of the fixed-point number with the raw value `raw`,
/// cut off after `places` decimal places, of which there are at most six.
pub open spec fn fixed_decimal(raw: int, places: nat) -> Seq<char> {
    let size: nat = (if raw < 0 {
        -raw
    } else {
        raw
    }) as nat;
    let sign: Seq<char> = if raw < 0 {
        seq!['-']
    } else {
        Seq::empty()
    };
    sign + digits(size / 1_000_000) + seq!['.'] + padded(
        (size % 1_000_000) / spec_tenth_power((6 - places) as nat),
        places,
    )
}

fn digit_text(d: u64) -> (r: &'static str)
    requires
        d < 10,
    ensures
        r@ == seq![digit_char(d as int)],
{
    proof {
        reveal_strlit("0");
        reveal_strlit("1");
        reveal_strlit("2");
        reveal_strlit("3");
        reveal_strlit("4");
        reveal_strlit("5");
        reveal_strlit("6");
        reveal_strlit("7");
        reveal_strlit("8");
        reveal_strlit("9");
    }
    let r = if d == 0 {
        "0"
    } else if d == 1 {
        "1"
    } else if d == 2 {
        "2"
    } else if d == 3 {
        "3"
    } else if d == 4 {
        "4"
    } else if d == 5 {
        "5"
    } else if d == 6 {
        "6"
    } else if d == 7 {
        "7"
    } else if d == 8 {
        "8"
    } else {
        "9"
    };
    assert(r@ =~= seq![digit_char(d as int)]);
    r
}

/// Appends the decimal digits of `n` to `out`.
pub fn push_digits(out: &mut String, n: u64)
    ensures
        final(out)@ == old(out)@ + digits(n as nat),
    decreases n,
{
    if n < 10 {
        out.append(digit_text(n));
    } else {
        push_digits(out, n / 10);
        out.append(digit_text(n % 10));
        assert(out@ =~= old(out)@ + digits(n as nat));
    }
}

/// Appends the last `width` decimal digits of `n` to `out`, with leading zeros.
pub fn push_padded(out: &mut String, n: u64, width: u32)
    ensures
        final(out)@ == old(out)@ + padded(n as nat, width as nat),
    decreases width,
{
    if width == 0 {
        assert(out@ =~= old(out)@ + padded(n as nat, 0));
    } else {
        push_padded(out, n / 10, width - 1);
        out.append(digit_text(n % 10));
        assert(out@ =~= old(out)@ + padded(n as nat, width as nat));
    }
}

/// Appends the decimal text of `n` to `out`.
pub fn push_decimal(out: &mut String, n: i64)
    ensures
        final(out)@ == old(out)@ + decimal(n as int),
{
    if n < 0 {
        proof {
            reveal_strlit("-");
        }
        out.append("-");
        let size: u64 = (-(n as i128)) as u64;
        push_digits(out, size);
        assert(out@ =~= old(out)@ + decimal(n as int));
    } else {
        push_digits(out, n as u64);
    }
}

/// The decimal text of `n`.
pub fn decimal_text(n: i64) -> (r: String)
    ensures
        r@ == decimal(n as int),
{
    let mut out: String = String::new();
    push_decimal(&mut out, n);
    assert(out@ =~= decimal(n as int));
    out
}

fn tenth_power(k: u32) -> (r: u64)
    ensures
        r == spec_tenth_power(k as nat),
{
    if k == 0 {
        1
    } else if k == 1 {
        10
    } else if k == 2 {
        100
    } else if k == 3 {
        1_000
    } else if k == 4 {
        10_000
    } else if k == 5 {
        100_000
    } else {
        1_000_000
    }
}

/// Appends the decimal text of `x`, cut off after `places` places, to `out`.
pub fn push_fixed(out: &mut String, x: Fixed, places: u32)
    requires
        places <= 6,
    ensures
        final(out)@ == old(out)@ + fixed_decimal(x.raw as int, places as nat),
{
    let size: u64 = if x.raw < 0 {
        (-(x.raw as i128)) as u64
    } else {
        x.raw as u64
    };
    proof {
        reveal_strlit("-");
        reveal_strlit(".");
    }
    if x.raw < 0 {
        out.append("-");
    }
    push_digits(out, size / 1_000_000);
    out.append(".");
    push_padded(out, (size % 1_000_000) / tenth_power(6 - places), places);
    assert(out@ =~= old(out)@ + fixed_decimal(x.raw as int, places as nat));
}

/// The decimal text of `x`, cut off after `places` decimal places.
pub fn fixed_text(x: Fixed, places: u32) -> (r: String)
    requires
        places <= 6,
    ensures
        r@ == fixed_decimal(x.raw as int, places as nat),
{
    let mut out: String = String::new();
    push_fixed(&mut out, x, places);
    assert(out@ =~= fixed_decimal(x.raw as int, places as nat));
    out
}

} // verus!
