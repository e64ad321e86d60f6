//! Small text helpers shared by the other modules.

use vstd::prelude::*;

verus! {

/// Appends one character to a string with `String::push`. Afterwards the
/// string holds what it held before, followed by `c`.
#[verifier::external_body]
pub(crate) fn push_char(s: &mut String, c: char)
    ensures
        final(s)@ == old(s)@.push(c),
{
    s.push(c);
}

/// The character that writes the decimal digit `d`.
pub open spec fn digit_char(d: nat) -> char
    recommends
        d < 10,
{
    if d == 0 {
        '0'
    } else if d == 1 {
        '1'
    } else if d == 2 {
        '2'
    } else if d == 3 {
        '3'
    } else if d == 4 {
        '4'
    } else if d == 5 {
        '5'
    } else if d == 6 {
        '6'
    } else if d == 7 {
        '7'
    } else if d == 8 {
        '8'
    } else {
        '9'
    }
}

/// The decimal numeral of `n`, most significant digit first, without
/// leading zeros.
pub open spec fn decimal(n: nat) -> Seq<char>
    decreases n,
{
    if n < 10 {
        seq![digit_char(n)]
    } else {
        decimal(n / 10).push(digit_char(n % 10))
    }
}

/// The character of the last decimal digit of `d`.
pub fn last_digit(d: u32) -> (c: char)
    ensures
        c == digit_char((d % 10) as nat),
{
    let r: u32 = d % 10;
    if r == 0 {
        '0'
    } else if r == 1 {
        '1'
    } else if r == 2 {
        '2'
    } else if r == 3 {
        '3'
    } else if r == 4 {
        '4'
    } else if r == 5 {
        '5'
    } else if r == 6 {
        '6'
    } else if r == 7 {
        '7'
    } else if r == 8 {
        '8'
    } else {
        '9'
    }
}

/// Appends the decimal numeral of `n` to `s`.
pub fn append_decimal(s: &mut String, n: u32)
    ensures
        final(s)@ == old(s)@ + decimal(n as nat),
    decreases n,
{
    if n >= 10 {
        append_decimal(s, n / 10);
    }
    push_char(s, last_digit(n));
    assert(final(s)@ =~= old(s)@ + decimal(n as nat));
}

} // verus!
