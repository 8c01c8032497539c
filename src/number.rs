use vstd::prelude::*;

verus! {

/// Whether `s` is one or more ASCII decimal digits.
pub open spec fn all_digits(s: Seq<char>) -> bool {
    s.len() > 0 && forall|i: int| 0 <= i < s.len() ==> '0' <= #[trigger] s[i] <= '9'
}

/// The value of a string of decimal digits, most significant first.
pub open spec fn digits_value(s: Seq<char>) -> int
    decreases s.len(),
{
    if s.len() == 0 {
        0
    } else {
        digits_value(s.drop_last()) * 10 + (s.last() as int - '0' as int)
    }
}

/// The integer that `s` writes in decimal: digits, with an optional leading
/// `+` or `-`.
pub open spec fn signed_decimal(s: Seq<char>) -> Option<int> {
    if s.len() > 0 && s[0] == '-' && all_digits(s.drop_first()) {
        Some(-digits_value(s.drop_first()))
    } else if s.len() > 0 && s[0] == '+' && all_digits(s.drop_first()) {
        Some(digits_value(s.drop_first()))
    } else if all_digits(s) {
        Some(digits_value(s))
    } else {
        None
    }
}

/// The integer that `s` writes in decimal without a sign, or with a `+`.
pub open spec fn unsigned_decimal(s: Seq<char>) -> Option<int> {
    if s.len() > 0 && s[0] == '+' && all_digits(s.drop_first()) {
        Some(digits_value(s.drop_first()))
    } else if all_digits(s) {
        Some(digits_value(s))
    } else {
        None
    }
}

/// The `i32` that `s` writes, if it writes one in range.
pub open spec fn i32_of(s: Seq<char>) -> Option<i32> {
    match signed_decimal(s) {
        Some(v) => if i32::MIN <= v <= i32::MAX {
            Some(v as i32)
        } else {
            None
        },
        None => None,
    }
}

/// The `usize` that `s` writes, if it writes one in range.
pub open spec fn usize_of(s: Seq<char>) -> Option<usize> {
    match unsigned_decimal(s) {
        Some(v) => if v <= usize::MAX {
            Some(v as usize)
        } else {
            None
        },
        None => None,
    }
}

/// Relies on `str::parse::<i32>` (`i32::from_str`): an optional `+` or `-`
/// followed by one or more ASCII digits, whose value fits in an `i32`;
/// anything else is an error.
#[verifier::external_body]
pub(crate) fn parse_i32(s: &str) -> (r: Option<i32>)
    ensures
        r == i32_of(s@),
{
    s.parse::<i32>().ok()
}

/// Relies on `str::parse::<usize>` (`usize::from_str`): an optional `+`
/// followed by one or more ASCII digits, whose value fits in a `usize`;
/// anything else, a `-` sign included, is an error.
#[verifier::external_body]
pub(crate) fn parse_usize(s: &str) -> (r: Option<usize>)
    ensures
        r == usize_of(s@),
{
    s.parse::<usize>().ok()
}

} // verus!
