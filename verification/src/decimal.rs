use vstd::prelude::*;

verus! {

/// The character for a single decimal digit `d`.
pub open spec fn spec_digit(d: int) -> Seq<char> {
    if d == 0 {
        "0"@
    } else if d == 1 {
        "1"@
    } else if d == 2 {
        "2"@
    } else if d == 3 {
        "3"@
    } else if d == 4 {
        "4"@
    } else if d == 5 {
        "5"@
    } else if d == 6 {
        "6"@
    } else if d == 7 {
        "7"@
    } else if d == 8 {
        "8"@
    } else {
        "9"@
    }
}

/// The decimal digit string of a nonnegative integer, most significant
/// digit first and without leading zeros (except for zero itself).
pub open spec fn spec_nat_decimal(n: int) -> Seq<char>
    decreases n,
{
    if n < 10 {
        spec_digit(n)
    } else {
        spec_nat_decimal(n / 10) + spec_digit(n % 10)
    }
}

/// The decimal string of a signed integer: a leading minus sign for
/// negative values, the digits alone otherwise.
pub open spec fn spec_i32_decimal(n: int) -> Seq<char> {
    if n < 0 {
        "-"@ + spec_nat_decimal(-n)
    } else {
        spec_nat_decimal(n)
    }
}

/// The one-character string for a single decimal digit.
fn digit_str(d: u32) -> (r: &'static str)
    requires
        d < 10,
    ensures
        r@ == spec_digit(d as int),
{
    if d == 0 {
        "0"
    } else if d == 1 {
        "1"
    } else if d == 2 {
        "2"
    } else if d == 3 {
        "3"
    } else if d == 4 {
        "4"
    } else if d == 5 {
        "5"
    } else if d == 6 {
        "6"
    } else if d == 7 {
        "7"
    } else if d == 8 {
        "8"
    } else {
        "9"
    }
}

/// Formats an unsigned integer in decimal.
pub fn u32_to_decimal(n: u32) -> (r: String)
    ensures
        r@ == spec_nat_decimal(n as int),
    decreases n,
{
    if n < 10 {
        String::from_str(digit_str(n))
    } else {
        let mut s = u32_to_decimal(n / 10);
        s.append(digit_str(n % 10));
        s
    }
}

/// Formats a signed integer in decimal, with a minus sign when negative.
pub fn i32_to_decimal(n: i32) -> (r: String)
    ensures
        r@ == spec_i32_decimal(n as int),
{
    if n >= 0 {
        u32_to_decimal(n as u32)
    } else {
        let magnitude = -(n as i64);
        let mut s = String::from_str("-");
        let digits = u32_to_decimal(magnitude as u32);
        s.append(digits.as_str());
        s
    }
}

} // verus!
