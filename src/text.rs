//! Decimal rendering of numbers and the text helpers built on it.
use vstd::prelude::*;

verus! {

/// The character of a decimal digit.
pub open spec fn digit_char(d: int) -> char {
    if d == 0 {
        '0'
    } else if d == 1 {
        '1'
    } else if d == 2 {
        '2'
    } else if d == 3 {
        '3'
    } else if d == 4 {
        '4'
    } else if d == 5 {
        '5'
    } else if d == 6 {
        '6'
    } else if d == 7 {
        '7'
    } else if d == 8 {
        '8'
    } else {
        '9'
    }
}

/// The decimal digits of `n`, most significant first, without leading zeros.
pub open spec fn decimal_text(n: nat) -> Seq<char>
    decreases n,
{
    if n < 10 {
        seq![digit_char(n as int)]
    } else {
        decimal_text(n / 10).push(digit_char((n % 10) as int))
    }
}

/// `n` written with exactly `width` digits, zero padded (`n < 10^width`).
pub open spec fn padded_text(n: nat, width: nat) -> Seq<char>
    decreases width,
{
    if width == 0 {
        Seq::empty()
    } else {
        padded_text(n / 10, (width - 1) as nat).push(digit_char((n % 10) as int))
    }
}

/// Relies on the standard `Display` of `u64` (through `to_string`): the
/// decimal digits of `n`, with no sign and no leading zeros.
#[verifier::external_body]
pub(crate) fn decimal(n: u64) -> (r: String)
    ensures
        r@ == decimal_text(n as nat),
{
    n.to_string()
}

/// `prefix`, then the decimal digits of `n`.
pub fn text_then_number(prefix: &str, n: u64) -> (r: String)
    ensures
        r@ == prefix@ + decimal_text(n as nat),
{
    let mut s = String::from_str(prefix);
    let digits = decimal(n);
    s.append(digits.as_str());
    s
}

} // verus!
