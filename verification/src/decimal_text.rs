//! Numbers written in decimal.

use vstd::prelude::*;

verus! {

/// The decimal digit that stands for a number below ten.
pub open spec fn decimal_digit(digit: nat) -> char {
    if digit == 0 {
        '0'
    } else if digit == 1 {
        '1'
    } else if digit == 2 {
        '2'
    } else if digit == 3 {
        '3'
    } else if digit == 4 {
        '4'
    } else if digit == 5 {
        '5'
    } else if digit == 6 {
        '6'
    } else if digit == 7 {
        '7'
    } else if digit == 8 {
        '8'
    } else {
        '9'
    }
}

/// A number written in decimal, without leading zeros.
pub open spec fn decimal_text(n: nat) -> Seq<char>
    decreases n,
{
    if n < 10 {
        seq![decimal_digit(n)]
    } else {
        decimal_text(n / 10).push(decimal_digit(n % 10))
    }
}

/// `u64`'s `to_string`: the number in decimal, without sign or leading
/// zeros.
#[verifier::external_body]
pub(crate) fn decimal_string(n: u64) -> (text: String)
    ensures
        text@ == decimal_text(n as nat),
{
    n.to_string()
}

/// Two texts, one after the other.
pub(crate) fn text_with(prefix: &str, tail: &str) -> (text: String)
    ensures
        text@ == prefix@ + tail@,
{
    let mut text = prefix.to_owned();
    text.append(tail);
    text
}

/// Three texts, one after the other.
pub(crate) fn text_between(prefix: &str, middle: &str, suffix: &str) -> (text: String)
    ensures
        text@ == prefix@ + middle@ + suffix@,
{
    let mut text = prefix.to_owned();
    text.append(middle);
    text.append(suffix);
    text
}

} // verus!
