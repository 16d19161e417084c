use vstd::prelude::*;

verus! {

/// Width and height taken when an argument is not a number.
pub const DEFAULT_DIMENSION: u32 = 256;

pub open spec fn is_digit(c: char) -> bool {
    '0' <= c && c <= '9'
}

/// The value of a string of decimal digits.
pub open spec fn digits_value(s: Seq<char>) -> nat
    decreases s.len(),
{
    if s.len() == 0 {
        0
    } else {
        digits_value(s.drop_last()) * 10 + ((s.last() as int) - ('0' as int)) as nat
    }
}

/// The strings that `u32` parses: an optional `+` and then one or more
/// decimal digits, with a value that fits in 32 bits.
pub open spec fn decimal_u32(s: Seq<char>) -> Option<u32> {
    let d = if s.len() > 0 && s[0] == '+' {
        s.drop_first()
    } else {
        s
    };
    if d.len() > 0 && (forall|i: int| 0 <= i < d.len() ==> is_digit(#[trigger] d[i]))
        && digits_value(d) <= u32::MAX {
        Some(digits_value(d) as u32)
    } else {
        None
    }
}

/// The image dimension an argument names: its decimal value, or the
/// default where it is not a number.
pub open spec fn dimension_of(s: Seq<char>) -> u32 {
    match decimal_u32(s) {
        Some(n) => n,
        None => DEFAULT_DIMENSION,
    }
}

/// Relies on `str::parse::<u32>` (`u32`'s `FromStr`), which accepts an
/// optional `+` followed by decimal digits whose value fits in `u32`, and
/// rejects everything else.
#[verifier::external_body]
fn parse_u32(s: &str) -> (r: Option<u32>)
    ensures
        r == decimal_u32(s@),
{
    s.parse::<u32>().ok()
}

/// Reads an image dimension from a command-line argument; malformed input
/// falls back to the default rather than failing.
pub fn dimension_arg(arg: &str) -> (r: u32)
    ensures
        r == dimension_of(arg@),
{
    match parse_u32(arg) {
        Some(n) => n,
        None => DEFAULT_DIMENSION,
    }
}

} // verus!
