//! Building strings: appending characters and writing integers in decimal.

use vstd::prelude::*;

verus! {

/// `String::push` of the standard library: the character is appended to the
/// end of the string and nothing else changes.
pub assume_specification[ String::push ](s: &mut String, c: char)
    ensures
        final(s)@ == old(s)@.push(c),
;

/// The ten decimal digits in order.
pub open spec fn digits() -> Seq<char> {
    "0123456789"@
}

/// The decimal numeral of a natural number, without leading zeros.
pub open spec fn decimal(n: nat) -> Seq<char>
    decreases n,
{
    if n < 10 {
        seq![digits()[n as int]]
    } else {
        decimal(n / 10).push(digits()[(n % 10) as int])
    }
}

/// The decimal numeral of an integer: a minus sign before the numeral of the
/// magnitude when the integer is negative.
pub open spec fn signed_decimal(i: int) -> Seq<char> {
    if i < 0 {
        seq!['-'] + decimal((-i) as nat)
    } else {
        decimal(i as nat)
    }
}

/// The word that stands for a truth value.
pub open spec fn truth_word(b: bool) -> Seq<char> {
    if b {
        "true"@
    } else {
        "false"@
    }
}

fn digit(d: u8) -> (c: char)
    requires
        d < 10,
    ensures
        c == digits()[d as int],
{
    proof {
        reveal_strlit("0123456789");
    }
    (d + 48) as char
}

/// Appends the decimal numeral of `n` to `out`.
pub fn push_decimal(out: &mut String, n: u64)
    ensures
        final(out)@ == old(out)@ + decimal(n as nat),
    decreases n,
{
    if n >= 10 {
        push_decimal(out, n / 10);
    }
    out.push(digit((n % 10) as u8));
}

/// The decimal numeral of `n`.
pub fn decimal_string(n: u64) -> (s: String)
    ensures
        s@ == decimal(n as nat),
{
    let mut s = String::new();
    push_decimal(&mut s, n);
    s
}

/// The decimal numeral of `i`, with a leading minus sign when it is negative.
pub fn signed_decimal_string(i: i64) -> (s: String)
    ensures
        s@ == signed_decimal(i as int),
{
    let mut s = String::new();
    if i < 0 {
        s.push('-');
        let magnitude: u64 = ((-(i + 1)) as u64) + 1;
        push_decimal(&mut s, magnitude);
    } else {
        push_decimal(&mut s, i as u64);
    }
    s
}

/// `"true"` or `"false"`.
pub fn truth_string(b: bool) -> (s: String)
    ensures
        s@ == truth_word(b),
{
    if b {
        String::from_str("true")
    } else {
        String::from_str("false")
    }
}

} // verus!
