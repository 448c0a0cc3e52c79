//! Numbers as the screen shows them.

use vstd::prelude::*;

verus! {

/// The text of the digit `d`.
pub open spec fn digit_text(d: int) -> Seq<char> {
    if d == 0 {
        "0"@
    } else if d == 1 {
        "1"@
    } else if d == 2 {
        "2"@
    } else if d == 3 {
        "3"@
    } else if d == 4 {
        "4"@
    } else if d == 5 {
        "5"@
    } else if d == 6 {
        "6"@
    } else if d == 7 {
        "7"@
    } else if d == 8 {
        "8"@
    } else {
        "9"@
    }
}

/// `n` in decimal digits, without leading zeros; "0" for 0.
pub open spec fn decimal_text(n: nat) -> Seq<char>
    decreases n,
{
    if n < 10 {
        digit_text(n as int)
    } else {
        decimal_text(n / 10) + digit_text((n % 10) as int)
    }
}

/// `n` in decimal digits, with a zero in front where it has only one.
pub open spec fn two_digit_text(n: nat) -> Seq<char> {
    if n < 10 {
        "0"@ + decimal_text(n)
    } else {
        decimal_text(n)
    }
}

/// `n` in decimal digits, moved to the right of three columns by spaces.
pub open spec fn three_column_text(n: nat) -> Seq<char> {
    if n < 10 {
        "  "@ + decimal_text(n)
    } else if n < 100 {
        " "@ + decimal_text(n)
    } else {
        decimal_text(n)
    }
}

/// A clock's reading of `secs` seconds: minutes and seconds, two digits
/// each at least, a colon between them.
pub open spec fn mm_ss_text(secs: nat) -> Seq<char> {
    two_digit_text(secs / 60) + ":"@ + two_digit_text(secs % 60)
}

/// The text of one digit.
fn digit(d: u64) -> (r: &'static str)
    requires
        d < 10,
    ensures
        r@ == digit_text(d as int),
{
    if d == 0 {
        "0"
    } else if d == 1 {
        "1"
    } else if d == 2 {
        "2"
    } else if d == 3 {
        "3"
    } else if d == 4 {
        "4"
    } else if d == 5 {
        "5"
    } else if d == 6 {
        "6"
    } else if d == 7 {
        "7"
    } else if d == 8 {
        "8"
    } else {
        "9"
    }
}

/// `n` written in decimal digits.
pub fn decimal(n: u64) -> (r: String)
    ensures
        r@ == decimal_text(n as nat),
    decreases n,
{
    if n < 10 {
        digit(n).to_owned()
    } else {
        decimal(n / 10).concat(digit(n % 10))
    }
}

/// `n` written with two digits at least.
pub fn two_digits(n: u64) -> (r: String)
    ensures
        r@ == two_digit_text(n as nat),
{
    if n < 10 {
        "0".to_owned().concat(decimal(n).as_str())
    } else {
        decimal(n)
    }
}

/// `n` written to the right of three columns.
pub fn three_columns(n: u64) -> (r: String)
    ensures
        r@ == three_column_text(n as nat),
{
    if n < 10 {
        "  ".to_owned().concat(decimal(n).as_str())
    } else if n < 100 {
        " ".to_owned().concat(decimal(n).as_str())
    } else {
        decimal(n)
    }
}

/// The reading of a clock that has run for `secs` seconds.
pub fn to_mm_ss(secs: u64) -> (r: String)
    ensures
        r@ == mm_ss_text(secs as nat),
{
    two_digits(secs / 60).concat(":").concat(two_digits(secs % 60).as_str())
}

} // verus!
