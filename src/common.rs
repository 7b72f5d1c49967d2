use vstd::prelude::*;

use crate::user::AuthenticationSuccessResponse;

verus! {

/// The body that comes with a bad-request status.
pub struct BadRequestResponseBody {
    /// The kind of error.
    pub typ: String,
}

/// A response of the HTTP API: its status, the status's reason phrase, and
/// its body read as each shape that a caller may expect (`None` where it is
/// not of that shape).
pub struct ApiReply {
    pub status: u16,
    pub reason: String,
    pub success: Option<AuthenticationSuccessResponse>,
    pub bad_request: Option<BadRequestResponseBody>,
}

pub const STATUS_OK: u16 = 200;

pub const STATUS_BAD_REQUEST: u16 = 400;

pub const STATUS_UNAUTHORIZED: u16 = 401;

/// A `String` holding the characters of `s`.
pub fn text(s: &str) -> (r: String)
    ensures
        r@ == s@,
{
    String::from_str(s)
}

/// Whether `s` holds exactly the characters of `lit`.
pub fn same_text(s: &String, lit: &str) -> (r: bool)
    ensures
        r == (s@ == lit@),
{
    let t = String::from_str(lit);
    *s == t
}

} // verus!
