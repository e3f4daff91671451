//! Small text helpers: decimal rendering of integers.

use vstd::prelude::*;

verus! {

/// The character of a decimal digit `d` (0 ..= 9).
pub open spec fn digit_char(d: int) -> char {
    ('0' as int + d) as char
}

/// Decimal digits of a natural number, most significant first.
pub open spec fn nat_decimal(n: nat) -> Seq<char>
    decreases n,
{
    if n < 10 {
        seq![digit_char(n as int)]
    } else {
        nat_decimal(n / 10).push(digit_char((n % 10) as int))
    }
}

/// Decimal rendering of an integer, with a leading '-' for negatives.
pub open spec fn int_decimal(i: int) -> Seq<char> {
    if i < 0 {
        seq!['-'] + nat_decimal((-i) as nat)
    } else {
        nat_decimal(i as nat)
    }
}

/// Renders `x` in decimal.
/// Calls std's `ToString::to_string` on `i64`; the contract states that the
/// result is the usual decimal notation of `x`.
#[verifier::external_body]
pub(crate) fn i64_to_decimal(x: i64) -> (s: String)
    ensures
        s@ == int_decimal(x as int),
{
    x.to_string()
}

/// The lowercase form of a string, as std's `str::to_lowercase` gives it.
pub uninterp spec fn lowercase_of(s: Seq<char>) -> Seq<char>;

/// An ASCII letter 'A' ..= 'Z' mapped to 'a' ..= 'z'; every other
/// character kept.
pub open spec fn ascii_lower_char(c: char) -> char {
    if 65 <= (c as int) <= 90 {
        ((c as int) + 32) as char
    } else {
        c
    }
}

/// ASCII letters 'A' ..= 'Z' mapped to 'a' ..= 'z', every other character kept.
pub open spec fn ascii_lowercase(s: Seq<char>) -> Seq<char> {
    s.map_values(|c: char| ascii_lower_char(c))
}

/// A decimal digit character.
pub open spec fn is_digit(c: char) -> bool {
    48 <= (c as int) <= 57
}

/// The value of a string of decimal digits.
pub open spec fn digits_value(s: Seq<char>) -> int
    decreases s.len(),
{
    if s.len() == 0 {
        0
    } else {
        digits_value(s.drop_last()) * 10 + ((s.last() as int) - 48)
    }
}

/// What `str::parse::<usize>` reads from `s`: an optional '+' followed by
/// one or more decimal digits whose value fits in a `usize`; anything else
/// is an error.
pub open spec fn usize_literal(s: Seq<char>) -> Option<int> {
    let body = if s.len() > 0 && s[0] == '+' {
        s.drop_first()
    } else {
        s
    };
    if body.len() > 0 && (forall|i: int| 0 <= i < body.len() ==> is_digit(#[trigger] body[i]))
        && digits_value(body) <= usize::MAX {
        Some(digits_value(body))
    } else {
        None
    }
}

/// Reads a `usize` with std's `str::parse::<usize>`. The contract states
/// std's documented format: an optional '+' followed by decimal digits only,
/// with a value that fits; every other input is an error.
#[verifier::external_body]
pub(crate) fn parse_usize(s: &str) -> (r: Option<usize>)
    ensures
        match r {
            Some(n) => usize_literal(s@) == Some(n as int),
            None => usize_literal(s@) is None,
        },
{
    s.parse::<usize>().ok()
}

/// Lowercases `s` with std's `str::to_lowercase`. The result is named
/// `lowercase_of`: std defines it by Unicode's lowercase mapping, which
/// depends on `s` alone; the mapping itself is not written out here.
#[verifier::external_body]
pub(crate) fn to_lowercase(s: &str) -> (r: String)
    ensures
        r@ == lowercase_of(s@),
{
    s.to_lowercase()
}

} // verus!
