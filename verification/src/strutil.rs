//! Verified construction of decimal digit strings.
//!
//! The supervisor renders numbers into text in several places: the port in
//! the backend URL and in the `PORT` environment variable, and the fields of
//! a log timestamp. The spec functions here define those digit sequences
//! mathematically, and the executable functions are proved to produce them.

use vstd::prelude::*;

verus! {

/// The character for a single decimal digit.
pub open spec fn spec_digit_char(d: nat) -> char {
    if d == 0 {
        '0'
    } else if d == 1 {
        '1'
    } else if d == 2 {
        '2'
    } else if d == 3 {
        '3'
    } else if d == 4 {
        '4'
    } else if d == 5 {
        '5'
    } else if d == 6 {
        '6'
    } else if d == 7 {
        '7'
    } else if d == 8 {
        '8'
    } else {
        '9'
    }
}

/// The decimal rendering of a natural number, without leading zeroes
/// (a lone zero is rendered as "0").
pub open spec fn spec_decimal(n: nat) -> Seq<char>
    decreases n,
{
    if n < 10 {
        seq![spec_digit_char(n)]
    } else {
        spec_decimal(n / 10) + seq![spec_digit_char(n % 10)]
    }
}

/// A number rendered as exactly two decimal digits, zero padded;
/// only the two low-order digits are kept.
pub open spec fn spec_two_digits(n: nat) -> Seq<char> {
    seq![spec_digit_char((n / 10) % 10), spec_digit_char(n % 10)]
}

/// A number rendered as exactly four decimal digits, zero padded;
/// only the four low-order digits are kept.
pub open spec fn spec_four_digits(n: nat) -> Seq<char> {
    seq![
        spec_digit_char((n / 1000) % 10),
        spec_digit_char((n / 100) % 10),
        spec_digit_char((n / 10) % 10),
        spec_digit_char(n % 10),
    ]
}

/// A one-character string slice for a single decimal digit.
fn digit_str(d: u64) -> (s: &'static str)
    requires
        d < 10,
    ensures
        s@ =~= seq![spec_digit_char(d as nat)],
{
    proof {
        reveal_strlit("0");
        reveal_strlit("1");
        reveal_strlit("2");
        reveal_strlit("3");
        reveal_strlit("4");
        reveal_strlit("5");
        reveal_strlit("6");
        reveal_strlit("7");
        reveal_strlit("8");
        reveal_strlit("9");
    }
    match d {
        0 => "0",
        1 => "1",
        2 => "2",
        3 => "3",
        4 => "4",
        5 => "5",
        6 => "6",
        7 => "7",
        8 => "8",
        _ => "9",
    }
}

/// Render a number in decimal, without leading zeroes.
pub fn decimal_string(n: u64) -> (s: String)
    ensures
        s@ == spec_decimal(n as nat),
    decreases n,
{
    if n < 10 {
        let s = digit_str(n).to_owned();
        assert(s@ =~= spec_decimal(n as nat));
        s
    } else {
        let mut s = decimal_string(n / 10);
        s.append(digit_str(n % 10));
        assert(s@ =~= spec_decimal(n as nat));
        s
    }
}

/// Render the two low-order decimal digits of a number, zero padded.
pub fn two_digit_string(n: u64) -> (s: String)
    ensures
        s@ == spec_two_digits(n as nat),
{
    let mut s = digit_str((n / 10) % 10).to_owned();
    s.append(digit_str(n % 10));
    assert(s@ =~= spec_two_digits(n as nat));
    s
}

/// Render the four low-order decimal digits of a number, zero padded.
pub fn four_digit_string(n: u64) -> (s: String)
    ensures
        s@ == spec_four_digits(n as nat),
{
    let mut s = digit_str((n / 1000) % 10).to_owned();
    s.append(digit_str((n / 100) % 10));
    s.append(digit_str((n / 10) % 10));
    s.append(digit_str(n % 10));
    assert(s@ =~= spec_four_digits(n as nat));
    s
}

} // verus!
