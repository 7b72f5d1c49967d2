use vstd::prelude::*;

use crate::common::{same_text, text, ApiReply, STATUS_BAD_REQUEST, STATUS_OK};
use crate::password::{validate_password, PasswordCriteria, PasswordValidation, all_met, password_criteria};
use crate::username::{username_criteria, validate_username, UsernameCriteria, UsernameValidation};

verus! {

/// The id and session token that the server hands out on success.
pub struct AuthenticationSuccessResponse {
    pub id: String,
    pub token: String,
}

/// The outcome of creating an account.
pub enum CreateUserResult {
    Success(AuthenticationSuccessResponse),
    AlreadyLoggedIn,
    UsernameAlreadyExists,
    InvalidPassword(PasswordCriteria),
    InvalidUsername(UsernameCriteria),
}

/// The result owed before any request: the password is checked first, then
/// the username; `None` when both pass and the request is to be made.
pub open spec fn create_user_precheck_spec(username: Seq<char>, password: Seq<char>) -> Option<
    CreateUserResult,
> {
    let pc = password_criteria(password);
    let uc = username_criteria(username);
    if !all_met(pc) {
        Some(CreateUserResult::InvalidPassword(pc))
    } else if !(uc.length && uc.charset) {
        Some(CreateUserResult::InvalidUsername(uc))
    } else {
        None
    }
}

/// The message for a bad-request reply of the given error kind.
pub open spec fn create_user_rejection(typ: Seq<char>) -> Seq<char> {
    if typ == "JSON"@ {
        "invalid request"@
    } else if typ == "USERNAME"@ {
        "invalid username"@
    } else if typ == "PASSWORD"@ {
        "invalid password"@
    } else if typ == "DUPLICATE"@ {
        "user already exists"@
    } else {
        "invalid server response"@
    }
}

/// Checks both fields before an account is requested.
pub fn create_user_precheck(username: &str, password: &str) -> (r: Option<CreateUserResult>)
    ensures
        r == create_user_precheck_spec(username@, password@),
{
    if let PasswordValidation::Invalid(crit) = validate_password(password) {
        return Some(CreateUserResult::InvalidPassword(crit));
    }
    if let UsernameValidation::Invalid(crit) = validate_username(username) {
        return Some(CreateUserResult::InvalidUsername(crit));
    }
    None
}

/// Reads the server's answer to an account request; `reply` is `Err` with
/// the transport's message when no response came.
pub fn create_user_outcome(reply: Result<ApiReply, String>) -> (r: Result<CreateUserResult, String>)
    ensures
        match reply {
            Err(e) => r == Err::<CreateUserResult, String>(e),
            Ok(a) => if a.status == STATUS_OK {
                match a.success {
                    Some(body) => r == Ok::<CreateUserResult, String>(
                        CreateUserResult::Success(body),
                    ),
                    None => r is Err && r->Err_0@ == "malformed server response"@,
                }
            } else if a.status == STATUS_BAD_REQUEST {
                match a.bad_request {
                    Some(body) => r is Err && r->Err_0@ == create_user_rejection(body.typ@),
                    None => r is Err && r->Err_0@ == "malformed server response"@,
                }
            } else {
                r is Err && r->Err_0@ == "invalid server response"@
            },
        },
{
    let a = match reply {
        Err(e) => return Err(e),
        Ok(a) => a,
    };
    if a.status == STATUS_OK {
        match a.success {
            Some(body) => Ok(CreateUserResult::Success(body)),
            None => Err(text("malformed server response")),
        }
    } else if a.status == STATUS_BAD_REQUEST {
        match a.bad_request {
            None => Err(text("malformed server response")),
            Some(body) => {
                let msg = if same_text(&body.typ, "JSON") {
                    text("invalid request")
                } else if same_text(&body.typ, "USERNAME") {
                    text("invalid username")
                } else if same_text(&body.typ, "PASSWORD") {
                    text("invalid password")
                } else if same_text(&body.typ, "DUPLICATE") {
                    text("user already exists")
                } else {
                    text("invalid server response")
                };
                Err(msg)
            },
        }
    } else {
        Err(text("invalid server response"))
    }
}

} // verus!
