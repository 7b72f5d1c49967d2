use vstd::prelude::*;

use crate::text::ascii_alphanumeric;

verus! {

pub const MIN_USERNAME_LENGTH: usize = 4;

pub const MAX_USERNAME_LENGTH: usize = 24;

pub open spec fn valid_username_char(c: char) -> bool {
    ascii_alphanumeric(c) || c == '-' || c == '_'
}

/// Which of the username rules a username meets.
#[derive(PartialEq, Eq, Structural, Clone, Copy, Debug)]
pub struct UsernameCriteria {
    /// Between 4 and 24 bytes of UTF-8.
    pub length: bool,
    /// Every character is an ASCII letter or digit, `-` or `_`.
    pub charset: bool,
}

/// The outcome of checking a username.
#[derive(PartialEq, Eq, Structural, Clone, Copy, Debug)]
pub enum UsernameValidation {
    Valid,
    Invalid(UsernameCriteria),
}

/// The criteria that the characters `s` meet.
pub open spec fn username_criteria(s: Seq<char>) -> UsernameCriteria {
    UsernameCriteria {
        length: MIN_USERNAME_LENGTH <= vstd::utf8::encode_utf8(s).len() <= MAX_USERNAME_LENGTH,
        charset: forall|i: int| 0 <= i < s.len() ==> valid_username_char(#[trigger] s[i]),
    }
}

/// The validation of the characters `s`.
pub open spec fn username_validation(s: Seq<char>) -> UsernameValidation {
    let c = username_criteria(s);
    if c.length && c.charset {
        UsernameValidation::Valid
    } else {
        UsernameValidation::Invalid(c)
    }
}

/// Whether `c` may stand in a username.
pub fn is_valid_username_char(c: char) -> (r: bool)
    ensures
        r == valid_username_char(c),
{
    (c >= 'a' && c <= 'z') || (c >= 'A' && c <= 'Z') || (c >= '0' && c <= '9') || c == '-'
        || c == '_'
}

impl UsernameValidation {
    /// `Valid` when both criteria are met, else `Invalid` with the criteria.
    pub fn new(criteria: UsernameCriteria) -> (r: UsernameValidation)
        ensures
            r == (if criteria.length && criteria.charset {
                UsernameValidation::Valid
            } else {
                UsernameValidation::Invalid(criteria)
            }),
    {
        if criteria.length && criteria.charset {
            UsernameValidation::Valid
        } else {
            UsernameValidation::Invalid(criteria)
        }
    }

    /// Whether this validation is `Valid`.
    pub fn is_valid(&self) -> (r: bool)
        ensures
            r == (*self is Valid),
    {
        match self {
            UsernameValidation::Valid => true,
            UsernameValidation::Invalid(_) => false,
        }
    }
}

/// Checks `username` against the username rules.
pub fn validate_username(username: &str) -> (r: UsernameValidation)
    ensures
        r == username_validation(username@),
{
    let len = username.as_bytes().len();
    let mut criteria = UsernameCriteria {
        length: len >= MIN_USERNAME_LENGTH && len <= MAX_USERNAME_LENGTH,
        charset: true,
    };
    let ghost s = username@;
    for c in it: username.chars()
        invariant
            it.seq() == s,
            criteria.length == username_criteria(s).length,
            criteria.charset == forall|i: int|
                0 <= i < it.index() ==> valid_username_char(#[trigger] s[i]),
    {
        if !is_valid_username_char(c) {
            criteria.charset = false;
        }
    }
    UsernameValidation::new(criteria)
}

/// The answer owed before a username lookup: a username that breaks the
/// rules cannot exist, so `Some(false)`; `None` when the lookup is to be made.
pub fn user_exists_precheck(username: &str) -> (r: Option<bool>)
    ensures
        r == (if username_validation(username@) is Valid {
            None::<bool>
        } else {
            Some(false)
        }),
{
    if validate_username(username).is_valid() {
        None
    } else {
        Some(false)
    }
}

/// Whether a username lookup found the user: `reply` is the status of the
/// lookup's response, or `None` when no response came. Only a success status
/// means that the user exists; anything else, a failed request included,
/// counts as absent.
pub fn user_exists_from_reply(reply: Option<u16>) -> (r: bool)
    ensures
        r == (reply == Some(200u16)),
{
    match reply {
        Some(status) => status == 200,
        None => false,
    }
}

} // verus!
