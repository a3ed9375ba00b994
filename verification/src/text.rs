//! Decoding and number parsing on text, as the standard library does them.

use vstd::prelude::*;

verus! {

/// `c` is one of the ASCII digits `0` to `9`.
pub open spec fn is_ascii_digit(c: char) -> bool {
    '0' <= c && c <= '9'
}

/// The number written by the decimal digits `s`, most significant first.
pub open spec fn decimal_value(s: Seq<char>) -> nat
    decreases s.len(),
{
    if s.len() == 0 {
        0
    } else {
        decimal_value(s.drop_last()) * 10 + ((s.last() as int) - ('0' as int)) as nat
    }
}

/// The digits of `s` once an optional leading `+` is taken off.
pub open spec fn unsigned_digits(s: Seq<char>) -> Seq<char> {
    if s.len() > 0 && s[0] == '+' {
        s.drop_first()
    } else {
        s
    }
}

/// What `u64`'s `FromStr` gives for `s`: an optional `+` and then one or more decimal
/// digits, nothing else, whose value fits in a `u64`.
pub open spec fn u64_from_decimal(s: Seq<char>) -> Option<u64> {
    let digits = unsigned_digits(s);
    if digits.len() > 0 && (forall|i: int| 0 <= i < digits.len() ==> is_ascii_digit(#[trigger] digits[i]))
        && decimal_value(digits) <= u64::MAX {
        Some(decimal_value(digits) as u64)
    } else {
        None
    }
}

/// `std::str::from_utf8`: succeeds exactly on valid UTF-8, and then the text is what
/// the bytes encode.
#[verifier::external_body]
pub(crate) fn decode_utf8_text(bytes: &[u8]) -> (text: Option<&str>)
    ensures
        text is Some <==> vstd::utf8::valid_utf8(bytes@),
        text matches Some(t) ==> t@ == vstd::utf8::decode_utf8(bytes@),
{
    std::str::from_utf8(bytes).ok()
}

/// `str::strip_suffix` with a string pattern: when `s` ends with `suffix`, the text
/// before it; otherwise nothing.
#[verifier::external_body]
pub(crate) fn strip_text_suffix<'a>(s: &'a str, suffix: &str) -> (rest: Option<&'a str>)
    ensures
        rest is Some <==> (suffix@.len() <= s@.len() && s@.subrange(
            s@.len() - suffix@.len(),
            s@.len() as int,
        ) == suffix@),
        rest matches Some(r) ==> r@ == s@.subrange(0, s@.len() - suffix@.len()),
{
    s.strip_suffix(suffix)
}

/// `str::parse::<u64>`: the value of an optional `+` followed by decimal digits, when it
/// fits; nothing for any other text.
#[verifier::external_body]
pub(crate) fn parse_u64(s: &str) -> (value: Option<u64>)
    ensures
        value == u64_from_decimal(s@),
{
    s.parse::<u64>().ok()
}

} // verus!
