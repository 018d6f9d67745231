//! Numbers written out as text: decimal, with a sign, padded, and hexadecimal.

use vstd::prelude::*;
use vstd::string::*;

verus! {

/// The sixteen hexadecimal digits, upper case; the first ten are the decimal
/// digits.
pub open spec fn digit_table() -> Seq<char> {
    "0123456789ABCDEF"@
}

/// The character of the digit `d`, for `d` below sixteen.
pub open spec fn digit_char(d: int) -> char {
    digit_table()[d]
}

/// `n` in decimal, without padding or sign.
pub open spec fn decimal(n: nat) -> Seq<char>
    decreases n,
{
    if n < 10 {
        seq![digit_char(n as int)]
    } else {
        decimal(n / 10).push(digit_char((n % 10) as int))
    }
}

/// `v` in decimal with its sign always written: `+5`, `-5`, `+0`.
pub open spec fn signed_decimal(v: int) -> Seq<char> {
    if v < 0 {
        seq!['-'] + decimal((-v) as nat)
    } else {
        seq!['+'] + decimal(v as nat)
    }
}

/// `v` in decimal, filled with a zero to two characters: `05`, `12`, `-5`.
pub open spec fn padded_decimal(v: int) -> Seq<char> {
    if v < 0 {
        seq!['-'] + decimal((-v) as nat)
    } else if v < 10 {
        seq!['0'] + decimal(v as nat)
    } else {
        decimal(v as nat)
    }
}

/// The two upper-case hexadecimal digits of `b`.
pub open spec fn hex_pair(b: u8) -> Seq<char> {
    seq![digit_char(b as int / 16), digit_char(b as int % 16)]
}

/// The one-character text of the digit `d`.
pub fn digit_str(d: u8) -> (s: &'static str)
    requires
        d < 16,
    ensures
        s@ == seq![digit_char(d as int)],
{
    let table: &'static str = "0123456789ABCDEF";
    proof {
        reveal_strlit("0123456789ABCDEF");
    }
    let s = table.substring_ascii(d as usize, d as usize + 1);
    assert(s@ =~= seq![digit_char(d as int)]);
    s
}

/// Writes `n` in decimal.
pub fn decimal_string(n: u64) -> (s: String)
    ensures
        s@ == decimal(n as nat),
    decreases n,
{
    if n < 10 {
        String::from_str(digit_str(n as u8))
    } else {
        let head = decimal_string(n / 10);
        let s = head.concat(digit_str((n % 10) as u8));
        assert(s@ =~= decimal(n as nat));
        s
    }
}

/// The magnitude of `v`.
pub fn magnitude(v: i32) -> (m: u64)
    ensures
        m == if v < 0 {
            -(v as int)
        } else {
            v as int
        },
{
    let wide: i64 = v as i64;
    if wide < 0 {
        (-wide) as u64
    } else {
        wide as u64
    }
}

/// Writes `v` in decimal with its sign, also where it is positive or zero.
pub fn signed_decimal_string(v: i32) -> (s: String)
    ensures
        s@ == signed_decimal(v as int),
{
    proof {
        reveal_strlit("-");
        reveal_strlit("+");
    }
    let digits = decimal_string(magnitude(v));
    let sign = if v < 0 {
        String::from_str("-")
    } else {
        String::from_str("+")
    };
    let s = sign.concat(digits.as_str());
    assert(s@ =~= signed_decimal(v as int));
    s
}

/// Writes `v` in decimal, with a leading zero where that is one digit.
pub fn padded_decimal_string(v: i32) -> (s: String)
    ensures
        s@ == padded_decimal(v as int),
{
    proof {
        reveal_strlit("-");
        reveal_strlit("0");
        reveal_strlit("");
    }
    let digits = decimal_string(magnitude(v));
    let lead = if v < 0 {
        String::from_str("-")
    } else if v < 10 {
        String::from_str("0")
    } else {
        String::from_str("")
    };
    let s = lead.concat(digits.as_str());
    assert(s@ =~= padded_decimal(v as int));
    s
}

/// Writes the two upper-case hexadecimal digits of `b`.
pub fn hex_pair_string(b: u8) -> (s: String)
    ensures
        s@ == hex_pair(b),
{
    let s = String::from_str(digit_str(b / 16)).concat(digit_str(b % 16));
    assert(s@ =~= hex_pair(b));
    s
}

} // verus!
