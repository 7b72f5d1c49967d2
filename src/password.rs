use vstd::prelude::*;

use crate::text::{alphabetic, ascii_alphanumeric, ascii_lower, ascii_upper, char_is_alphabetic, char_is_numeric, numeric};

verus! {

pub const MIN_PASSWORD_LENGTH: usize = 8;

pub const MAX_PASSWORD_LENGTH: usize = 512;

/// The punctuation that a password may hold, and one of which it must hold.
pub open spec fn special_password_char(c: char) -> bool {
    c == '~' || c == '!' || c == '@' || c == '#' || c == '$' || c == '%' || c == '^' || c == '&'
        || c == '*' || c == '(' || c == ')' || c == '_' || c == '+' || c == '`' || c == ' '
        || c == '-' || c == '=' || c == '{' || c == '[' || c == '}' || c == ']' || c == '|'
        || c == '\\' || c == ':' || c == ';' || c == '"' || c == '\'' || c == '<' || c == ','
        || c == '>' || c == '.' || c == '?' || c == '/'
}

pub open spec fn valid_password_char(c: char) -> bool {
    ascii_alphanumeric(c) || special_password_char(c)
}

/// Which of the password rules a password meets.
#[derive(PartialEq, Eq, Structural, Clone, Copy, Debug)]
pub struct PasswordCriteria {
    /// Every character is an ASCII letter or digit or special punctuation.
    pub charset: bool,
    /// Between 8 and 512 bytes of UTF-8.
    pub length: bool,
    /// At least one alphabetic character.
    pub alpha: bool,
    /// At least one numeric character.
    pub digit: bool,
    /// At least one ASCII upper-case letter.
    pub upper: bool,
    /// At least one ASCII lower-case letter.
    pub lower: bool,
    /// At least one special punctuation character.
    pub special: bool,
}

/// The outcome of checking a password.
#[derive(PartialEq, Eq, Structural, Clone, Copy, Debug)]
pub enum PasswordValidation {
    Valid,
    Invalid(PasswordCriteria),
}

pub open spec fn all_met(c: PasswordCriteria) -> bool {
    c.charset && c.length && c.alpha && c.digit && c.upper && c.lower && c.special
}

/// The criteria that the characters `s` meet.
pub open spec fn password_criteria(s: Seq<char>) -> PasswordCriteria {
    PasswordCriteria {
        charset: forall|i: int| 0 <= i < s.len() ==> valid_password_char(#[trigger] s[i]),
        length: MIN_PASSWORD_LENGTH <= vstd::utf8::encode_utf8(s).len() <= MAX_PASSWORD_LENGTH,
        alpha: exists|i: int| 0 <= i < s.len() && alphabetic(#[trigger] s[i]),
        digit: exists|i: int| 0 <= i < s.len() && numeric(#[trigger] s[i]),
        upper: exists|i: int| 0 <= i < s.len() && ascii_upper(#[trigger] s[i]),
        lower: exists|i: int| 0 <= i < s.len() && ascii_lower(#[trigger] s[i]),
        special: exists|i: int| 0 <= i < s.len() && special_password_char(#[trigger] s[i]),
    }
}

/// Whether `c` may stand in a password.
pub fn is_valid_password_char(c: char) -> (r: bool)
    ensures
        r == valid_password_char(c),
{
    (c >= 'a' && c <= 'z') || (c >= 'A' && c <= 'Z') || (c >= '0' && c <= '9')
        || is_special_password_char(c)
}

fn is_special_password_char(c: char) -> (r: bool)
    ensures
        r == special_password_char(c),
{
    c == '~' || c == '!' || c == '@' || c == '#' || c == '$' || c == '%' || c == '^' || c == '&'
        || c == '*' || c == '(' || c == ')' || c == '_' || c == '+' || c == '`' || c == ' '
        || c == '-' || c == '=' || c == '{' || c == '[' || c == '}' || c == ']' || c == '|'
        || c == '\\' || c == ':' || c == ';' || c == '"' || c == '\'' || c == '<' || c == ','
        || c == '>' || c == '.' || c == '?' || c == '/'
}

impl PasswordValidation {
    /// `Valid` when every criterion is met, else `Invalid` with the criteria.
    pub fn new(criteria: PasswordCriteria) -> (r: PasswordValidation)
        ensures
            r == (if all_met(criteria) {
                PasswordValidation::Valid
            } else {
                PasswordValidation::Invalid(criteria)
            }),
    {
        if criteria.charset && criteria.length && criteria.alpha && criteria.digit
            && criteria.upper && criteria.lower && criteria.special {
            PasswordValidation::Valid
        } else {
            PasswordValidation::Invalid(criteria)
        }
    }

    /// Whether this validation is `Valid`.
    pub fn is_valid(&self) -> (r: bool)
        ensures
            r == (*self is Valid),
    {
        match self {
            PasswordValidation::Valid => true,
            PasswordValidation::Invalid(_) => false,
        }
    }
}

/// Checks `password` against every password rule.
pub fn validate_password(password: &str) -> (r: PasswordValidation)
    ensures
        r == (if all_met(password_criteria(password@)) {
            PasswordValidation::Valid
        } else {
            PasswordValidation::Invalid(password_criteria(password@))
        }),
{
    let len = password.as_bytes().len();
    let mut criteria = PasswordCriteria {
        upper: false,
        lower: false,
        alpha: false,
        charset: true,
        digit: false,
        length: len >= MIN_PASSWORD_LENGTH && len <= MAX_PASSWORD_LENGTH,
        special: false,
    };
    let ghost s = password@;
    for c in it: password.chars()
        invariant
            it.seq() == s,
            criteria.length == password_criteria(s).length,
            criteria.charset == forall|i: int|
                0 <= i < it.index() ==> valid_password_char(#[trigger] s[i]),
            criteria.alpha == exists|i: int| 0 <= i < it.index() && alphabetic(#[trigger] s[i]),
            criteria.digit == exists|i: int| 0 <= i < it.index() && numeric(#[trigger] s[i]),
            criteria.upper == exists|i: int| 0 <= i < it.index() && ascii_upper(#[trigger] s[i]),
            criteria.lower == exists|i: int| 0 <= i < it.index() && ascii_lower(#[trigger] s[i]),
            criteria.special == exists|i: int|
                0 <= i < it.index() && special_password_char(#[trigger] s[i]),
    {
        if !is_valid_password_char(c) {
            criteria.charset = false;
        }
        if c >= 'A' && c <= 'Z' {
            criteria.upper = true;
        }
        if c >= 'a' && c <= 'z' {
            criteria.lower = true;
        }
        if char_is_numeric(c) {
            criteria.digit = true;
        }
        if char_is_alphabetic(c) {
            criteria.alpha = true;
        }
        if is_special_password_char(c) {
            criteria.special = true;
        }
    }
    PasswordValidation::new(criteria)
}

} // verus!
