//! Decimal rendering of counters and of fixed-point percentages.

use vstd::prelude::*;
use vstd::string::StringExecFns;

verus! {

/// The single character of the decimal digit `d`, as a one-character string.
pub open spec fn digit_str_view(d: nat) -> Seq<char> {
    if d == 0 {
        "0"@
    } else if d == 1 {
        "1"@
    } else if d == 2 {
        "2"@
    } else if d == 3 {
        "3"@
    } else if d == 4 {
        "4"@
    } else if d == 5 {
        "5"@
    } else if d == 6 {
        "6"@
    } else if d == 7 {
        "7"@
    } else if d == 8 {
        "8"@
    } else {
        "9"@
    }
}

/// The decimal digits of `n`, most significant first, no sign and no
/// leading zeros (a single zero for `n == 0`).
pub open spec fn dec_str(n: nat) -> Seq<char>
    decreases n,
{
    if n < 10 {
        digit_str_view(n)
    } else {
        dec_str(n / 10) + digit_str_view(n % 10)
    }
}

/// A fixed-point value in hundredths, rendered with exactly two
/// decimal places: 1234 becomes "12.34", 500 becomes "5.00".
pub open spec fn percent_str(v: nat) -> Seq<char> {
    dec_str(v / 100) + "."@ + digit_str_view((v % 100) / 10) + digit_str_view(v % 10)
}

fn digit_str(d: u64) -> (r: &'static str)
    requires
        d < 10,
    ensures
        r@ == digit_str_view(d as nat),
{
    if d == 0 {
        "0"
    } else if d == 1 {
        "1"
    } else if d == 2 {
        "2"
    } else if d == 3 {
        "3"
    } else if d == 4 {
        "4"
    } else if d == 5 {
        "5"
    } else if d == 6 {
        "6"
    } else if d == 7 {
        "7"
    } else if d == 8 {
        "8"
    } else {
        "9"
    }
}

/// `n` written in decimal.
pub fn u64_to_string(n: u64) -> (r: String)
    ensures
        r@ == dec_str(n as nat),
    decreases n,
{
    if n < 10 {
        digit_str(n).to_owned()
    } else {
        let mut s = u64_to_string(n / 10);
        s.append(digit_str(n % 10));
        s
    }
}

/// `v` hundredths written with two decimal places, as in "12.34".
pub fn format_percent(v: u64) -> (r: String)
    ensures
        r@ == percent_str(v as nat),
{
    let mut s = u64_to_string(v / 100);
    s.append(".");
    s.append(digit_str((v % 100) / 10));
    s.append(digit_str(v % 10));
    s
}

} // verus!
