//! The classes of characters that the lexer tells apart.

use vstd::prelude::*;
use crate::vm::output::decimal_digits;

verus! {

/// Whether `c` has the Unicode property `White_Space`, as
/// `char::is_whitespace` tells it.
pub uninterp spec fn unicode_whitespace(c: char) -> bool;

/// Whether `c` is a Unicode letter or number, as `char::is_alphanumeric`
/// tells it.
pub uninterp spec fn unicode_alphanumeric(c: char) -> bool;

/// `char::is_whitespace`: a function of the character alone, which looks it
/// up in the tables of the Unicode Character Database. The contract gives
/// its answer a name and claims nothing of its value.
#[verifier::external_body]
pub(crate) fn char_is_whitespace(c: char) -> (r: bool)
    ensures
        r == unicode_whitespace(c),
{
    c.is_whitespace()
}

/// `char::is_alphanumeric`: a function of the character alone, which looks
/// it up in the tables of the Unicode Character Database. The contract gives
/// its answer a name and claims nothing of its value.
#[verifier::external_body]
pub(crate) fn char_is_alphanumeric(c: char) -> (r: bool)
    ensures
        r == unicode_alphanumeric(c),
{
    c.is_alphanumeric()
}

/// Whether the lexer skips `c` between tokens: white space other than a line
/// break, which is a token of its own. `whitespace` is what
/// `char::is_whitespace` says of `c`.
pub fn is_blank(c: char, whitespace: bool) -> (r: bool)
    ensures
        r == (whitespace && c != '\n'),
{
    whitespace && c != '\n'
}

/// Whether `c` may stand in an identifier: a letter, a number or an
/// underscore. `alphanumeric` is what `char::is_alphanumeric` says of `c`.
pub fn is_identifier_part(c: char, alphanumeric: bool) -> (r: bool)
    ensures
        r == (alphanumeric || c == '_'),
{
    alphanumeric || c == '_'
}

/// Whether `c` may open an identifier: an ASCII letter or an underscore.
pub fn is_identifier_start(c: char) -> (r: bool)
    ensures
        r == identifier_start(c),
{
    (c >= 'a' && c <= 'z') || (c >= 'A' && c <= 'Z') || c == '_'
}

/// Whether `c` is one of the ten ASCII digits.
pub fn is_decimal_digit(c: char) -> (r: bool)
    ensures
        r == decimal_digit(c),
{
    c >= '0' && c <= '9'
}

/// The value of the ASCII digit `c`.
pub fn digit_value(c: char) -> (v: u8)
    requires
        decimal_digit(c),
    ensures
        v == digit_value_spec(c),
{
    (c as u32 - '0' as u32) as u8
}

/// White space that separates tokens on a line.
pub open spec fn blank(c: char) -> bool {
    unicode_whitespace(c) && c != '\n'
}

/// A character of an identifier after the first.
pub open spec fn identifier_part(c: char) -> bool {
    unicode_alphanumeric(c) || c == '_'
}

/// A character that opens an identifier.
pub open spec fn identifier_start(c: char) -> bool {
    ('a' <= c && c <= 'z') || ('A' <= c && c <= 'Z') || c == '_'
}

/// One of `0` to `9`.
pub open spec fn decimal_digit(c: char) -> bool {
    '0' <= c && c <= '9'
}

/// The value of a digit: 0 for `0`, up to 9 for `9`.
pub open spec fn digit_value_spec(c: char) -> int {
    c as int - '0' as int
}

/// The number that a row of digits spells in base ten.
pub open spec fn decimal_value(digits: Seq<char>) -> nat
    decreases digits.len(),
{
    if digits.len() == 0 {
        0
    } else {
        (decimal_value(digits.drop_last()) * 10 + digit_value_spec(digits.last())) as nat
    }
}

/// What the machine prints, the lexer reads back: the decimal digits of a
/// number are all digits, and spell that number.
pub proof fn lemma_decimal_roundtrip(n: nat)
    ensures
        forall|i: int|
            0 <= i < decimal_digits(n).len() ==> decimal_digit(#[trigger] decimal_digits(n)[i]),
        decimal_value(decimal_digits(n)) == n,
    decreases n,
{
    let digits = decimal_digits(n);
    if n < 10 {
        assert(decimal_value(digits.drop_last()) == 0);
    } else {
        lemma_decimal_roundtrip(n / 10);
        assert(digits.drop_last() =~= decimal_digits(n / 10));
    }
}

} // verus!
