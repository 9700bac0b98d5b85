//! Decimal text of fixed-point quantities, as JavaScript prints numbers:
//! no exponent, no trailing zeros after the point, no point for whole
//! values.

use vstd::prelude::*;
use vstd::string::StringExecFns;

use crate::lng_lat::UNITS_PER_DEGREE;

verus! {

/// The character of a decimal digit.
pub open spec fn digit_char(d: nat) -> char {
    if d == 0 { '0' }
    else if d == 1 { '1' }
    else if d == 2 { '2' }
    else if d == 3 { '3' }
    else if d == 4 { '4' }
    else if d == 5 { '5' }
    else if d == 6 { '6' }
    else if d == 7 { '7' }
    else if d == 8 { '8' }
    else { '9' }
}

/// The decimal digits of `n`, most significant first, with no leading zero
/// (`0` for zero).
pub open spec fn digits(n: nat) -> Seq<char>
    decreases n,
{
    if n < 10 {
        seq![digit_char(n)]
    } else {
        digits(n / 10).push(digit_char(n % 10))
    }
}

/// The last `width` decimal digits of `n`, zeros in front where `n` has fewer.
pub open spec fn padded(n: nat, width: nat) -> Seq<char>
    decreases width,
{
    if width == 0 {
        Seq::empty()
    } else {
        padded(n / 10, (width - 1) as nat).push(digit_char(n % 10))
    }
}

/// `s` without its trailing zeros.
pub open spec fn trim_zeros(s: Seq<char>) -> Seq<char>
    decreases s.len(),
{
    if s.len() > 0 && s.last() == '0' {
        trim_zeros(s.drop_last())
    } else {
        s
    }
}

/// The decimal text of the fixed-point quantity `n` (in `UNITS_PER_DEGREE`
/// units per unit): a minus sign when it is negative, the whole part, then
/// the fraction without trailing zeros, if it is not zero.
pub open spec fn decimal_text(n: int) -> Seq<char> {
    let m = if n < 0 { -n } else { n };
    let whole = (m / (UNITS_PER_DEGREE as int)) as nat;
    let fraction = (m % (UNITS_PER_DEGREE as int)) as nat;
    let sign = if n < 0 { "-"@ } else { Seq::<char>::empty() };
    if fraction == 0 {
        sign + digits(whole)
    } else {
        sign + digits(whole) + "."@ + trim_zeros(padded(fraction, 7))
    }
}

/// The one-character text of a digit.
fn digit_str(d: u64) -> (r: &'static str)
    requires
        d < 10,
    ensures
        r@ == seq![digit_char(d as nat)],
{
    proof {
        reveal_strlit("0");
        reveal_strlit("1");
        reveal_strlit("2");
        reveal_strlit("3");
        reveal_strlit("4");
        reveal_strlit("5");
        reveal_strlit("6");
        reveal_strlit("7");
        reveal_strlit("8");
        reveal_strlit("9");
    }
    if d == 0 { "0" }
    else if d == 1 { "1" }
    else if d == 2 { "2" }
    else if d == 3 { "3" }
    else if d == 4 { "4" }
    else if d == 5 { "5" }
    else if d == 6 { "6" }
    else if d == 7 { "7" }
    else if d == 8 { "8" }
    else {
        assert(seq!['9'] =~= "9"@);
        "9"
    }
}

/// Append the digits of `n`.
fn push_digits(s: &mut String, n: u64)
    ensures
        final(s)@ == old(s)@ + digits(n as nat),
    decreases n,
{
    if n >= 10 {
        push_digits(s, n / 10);
    }
    s.append(digit_str(n % 10));
    assert(final(s)@ =~= old(s)@ + digits(n as nat));
}

/// Append the last `width` digits of `n`, zero-padded.
fn push_padded(s: &mut String, n: u64, width: u64)
    ensures
        final(s)@ == old(s)@ + padded(n as nat, width as nat),
    decreases width,
{
    if width > 0 {
        push_padded(s, n / 10, width - 1);
        s.append(digit_str(n % 10));
    }
    assert(final(s)@ =~= old(s)@ + padded(n as nat, width as nat));
}

proof fn lemma_digit_zero(d: nat)
    requires
        d < 10,
    ensures
        (digit_char(d) == '0') == (d == 0),
{
}

/// Append the decimal text of the fixed-point quantity `n`.
pub fn push_decimal(s: &mut String, n: i64)
    ensures
        final(s)@ == old(s)@ + decimal_text(n as int),
{
    let wide: i128 = n as i128;
    let m: u64 = if wide < 0 { (-wide) as u64 } else { wide as u64 };
    let unit: u64 = 10_000_000;
    let whole = m / unit;
    let fraction = m % unit;
    if n < 0 {
        s.append("-");
    }
    push_digits(s, whole);
    if fraction != 0 {
        s.append(".");
        let mut f: u64 = fraction;
        let mut w: u64 = 7;
        while w > 0 && f % 10 == 0
            invariant
                trim_zeros(padded(fraction as nat, 7)) == trim_zeros(padded(f as nat, w as nat)),
                w <= 7,
            decreases w,
        {
            proof {
                lemma_digit_zero((f % 10) as nat);
                assert(padded(f as nat, w as nat).last() == '0');
                assert(padded(f as nat, w as nat).drop_last() =~= padded((f / 10) as nat, (w - 1) as nat));
            }
            f = f / 10;
            w = w - 1;
        }
        proof {
            if w > 0 {
                lemma_digit_zero((f % 10) as nat);
            }
        }
        push_padded(s, f, w);
    }
    proof {
        reveal_strlit("-");
        reveal_strlit(".");
    }
    assert(final(s)@ =~= old(s)@ + decimal_text(n as int));
}

} // verus!
