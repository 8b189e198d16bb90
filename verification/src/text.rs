//! Text operations of the standard library that the rest of the crate builds on.

use vstd::prelude::*;

verus! {

/// The text that `String::from_utf8_lossy` makes of a run of bytes: the bytes
/// decoded as UTF-8, with U+FFFD in place of each part that is not valid.
pub uninterp spec fn utf8_lossy(bytes: Seq<u8>) -> Seq<char>;

/// Calls `String::from_utf8_lossy` and takes the result as an owned string.
/// Nothing is proved of the decoding: the contract only names its result.
#[verifier::external_body]
pub(crate) fn decode_lossy(bytes: &[u8]) -> (text: String)
    ensures
        text@ == utf8_lossy(bytes@),
{
    String::from_utf8_lossy(bytes).into_owned()
}

/// Whether `char::is_alphanumeric` holds of a character: whether Unicode counts
/// it as a letter or as a number.
pub uninterp spec fn alphanumeric(c: char) -> bool;

/// Calls `char::is_alphanumeric`. Nothing is proved of Unicode's tables: the
/// contract only names the answer.
#[verifier::external_body]
pub(crate) fn is_alphanumeric(c: char) -> (answer: bool)
    ensures
        answer == alphanumeric(c),
{
    c.is_alphanumeric()
}

/// Calls `String::push`, which appends one character to the string.
#[verifier::external_body]
pub(crate) fn push_char(text: &mut String, c: char)
    ensures
        final(text)@ == old(text)@.push(c),
{
    text.push(c)
}

/// Calls `str::ends_with` with a string as the pattern: whether `text` ends
/// with the characters of `suffix`.
#[verifier::external_body]
pub(crate) fn ends_with(text: &str, suffix: &str) -> (answer: bool)
    ensures
        answer == suffix@.is_suffix_of(text@),
{
    text.ends_with(suffix)
}

/// Compares two strings with `==`: whether they hold the same characters.
#[verifier::external_body]
pub(crate) fn same_text(left: &str, right: &str) -> (answer: bool)
    ensures
        answer == (left@ == right@),
{
    left == right
}

} // verus!
