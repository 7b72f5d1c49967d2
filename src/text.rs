use vstd::prelude::*;

verus! {

pub open spec fn ascii_upper(c: char) -> bool {
    'A' <= c <= 'Z'
}

pub open spec fn ascii_lower(c: char) -> bool {
    'a' <= c <= 'z'
}

pub open spec fn ascii_digit(c: char) -> bool {
    '0' <= c <= '9'
}

pub open spec fn ascii_alphanumeric(c: char) -> bool {
    ascii_upper(c) || ascii_lower(c) || ascii_digit(c)
}

/// What `char::is_alphabetic` answers: the Unicode Alphabetic property.
pub uninterp spec fn alphabetic(c: char) -> bool;

/// What `char::is_numeric` answers: a Unicode number category.
pub uninterp spec fn numeric(c: char) -> bool;

/// Relies on char::is_alphabetic, whose source answers ASCII letters directly
/// and consults the Unicode tables above ASCII.
#[verifier::external_body]
pub(crate) fn char_is_alphabetic(c: char) -> (r: bool)
    ensures
        r == alphabetic(c),
        (c as u32) < 128 ==> r == (ascii_upper(c) || ascii_lower(c)),
{
    c.is_alphabetic()
}

/// Relies on char::is_numeric, whose source answers ASCII digits directly and
/// consults the Unicode tables above ASCII.
#[verifier::external_body]
pub(crate) fn char_is_numeric(c: char) -> (r: bool)
    ensures
        r == numeric(c),
        (c as u32) < 128 ==> r == ascii_digit(c),
{
    c.is_numeric()
}

} // verus!
