use vstd::prelude::*;

verus! {

/// Whether a character has the Unicode `White_Space` property; the
/// result depends on the character alone.
pub uninterp spec fn char_is_whitespace(c: char) -> bool;

/// Whether a character is in one of the Unicode letter or number
/// general categories; the result depends on the character alone.
pub uninterp spec fn char_is_alphanumeric(c: char) -> bool;

/// Relies on char::is_whitespace: true exactly for characters with the
/// Unicode `White_Space` property.
#[verifier::external_body]
pub(crate) fn is_whitespace_char(c: char) -> (r: bool)
    ensures
        r == char_is_whitespace(c),
{
    c.is_whitespace()
}

/// Relies on char::is_alphanumeric: true exactly for characters in a
/// Unicode letter or number general category.
#[verifier::external_body]
pub(crate) fn is_alphanumeric_char(c: char) -> (r: bool)
    ensures
        r == char_is_alphanumeric(c),
{
    c.is_alphanumeric()
}

/// A decimal digit in the ASCII range.
pub open spec fn is_digit_spec(c: char) -> bool {
    '0' as u32 <= c as u32 && c as u32 <= '9' as u32
}

pub(crate) fn is_digit_char(c: char) -> (r: bool)
    ensures
        r == is_digit_spec(c),
{
    '0' as u32 <= c as u32 && c as u32 <= '9' as u32
}

/// A character that may appear in an identifier or keyword: an
/// underscore or a Unicode alphanumeric character.
pub open spec fn is_name_char_spec(c: char) -> bool {
    c == '_' || char_is_alphanumeric(c)
}

pub(crate) fn is_name_char(c: char) -> (r: bool)
    ensures
        r == is_name_char_spec(c),
{
    c == '_' || is_alphanumeric_char(c)
}

} // verus!
