use vstd::prelude::*;

use crate::auth::AuthenticationState;
use crate::common::{same_text, text, ApiReply, STATUS_BAD_REQUEST, STATUS_OK, STATUS_UNAUTHORIZED};
use crate::user::{create_user_precheck, create_user_precheck_spec, CreateUserResult};

verus! {

/// The outcome of checking the held session token with the server.
#[derive(PartialEq, Eq, Structural, Clone, Copy, Debug)]
pub enum VerifyTokenResult {
    NotLoggedIn,
    Authorized,
    Expired,
}

/// The outcome of a log-in attempt.
#[derive(PartialEq, Eq, Structural, Clone, Copy, Debug)]
pub enum LoginResult {
    Authorized,
    Unauthorized,
    UserDoesNotExist,
}

/// The result owed before an account is requested: `AlreadyLoggedIn` while
/// a token is held, else the field checks; `None` when the request is to be
/// made.
pub fn create_user_start(auth: &AuthenticationState, username: &str, password: &str) -> (r: Option<
    CreateUserResult,
>)
    ensures
        r == (if auth.token.token is Some {
            Some(CreateUserResult::AlreadyLoggedIn)
        } else {
            create_user_precheck_spec(username@, password@)
        }),
{
    if auth.token.is_logged_in() {
        return Some(CreateUserResult::AlreadyLoggedIn);
    }
    create_user_precheck(username, password)
}

/// Records the token of a newly created account; any other outcome leaves
/// the state as it was. The outcome is handed back unchanged.
pub fn create_user_finish(auth: &mut AuthenticationState, outcome: Result<CreateUserResult, String>) -> (r:
    Result<CreateUserResult, String>)
    ensures
        r == outcome,
        match outcome {
            Ok(CreateUserResult::Success(body)) => final(auth).token.token == Some(body.token)
                && final(auth).user_id == old(auth).user_id,
            _ => *final(auth) == *old(auth),
        },
{
    if let Ok(CreateUserResult::Success(body)) = &outcome {
        auth.token.token = Some(body.token.clone());
    }
    outcome
}

/// The result owed before a token check: `NotLoggedIn` when no token is
/// held; `None` when the check is to be made.
pub fn verify_token_start(auth: &AuthenticationState) -> (r: Option<VerifyTokenResult>)
    ensures
        r == (if auth.token.token is None {
            Some(VerifyTokenResult::NotLoggedIn)
        } else {
            None::<VerifyTokenResult>
        }),
{
    if auth.token.is_logged_in() {
        None
    } else {
        Some(VerifyTokenResult::NotLoggedIn)
    }
}

/// Reads the server's answer to a token check; `reply` is the status, or
/// `Err` when no response came. An unauthorized status means that the token
/// expired: the state is logged out.
pub fn verify_token_outcome(auth: &mut AuthenticationState, reply: Result<u16, String>) -> (r: Result<
    VerifyTokenResult,
    String,
>)
    ensures
        match reply {
            Err(_) => r is Err && r->Err_0@ == "couldn't verify token"@,
            Ok(s) => if s == STATUS_OK {
                r == Ok::<VerifyTokenResult, String>(VerifyTokenResult::Authorized)
            } else if s == STATUS_BAD_REQUEST {
                r is Err && r->Err_0@ == "malformed token"@
            } else if s == STATUS_UNAUTHORIZED {
                r == Ok::<VerifyTokenResult, String>(VerifyTokenResult::Expired)
            } else {
                r is Err && r->Err_0@ == "invalid server response"@
            },
        },
        reply == Ok::<u16, String>(STATUS_UNAUTHORIZED) ==> final(auth).token.token is None
            && final(auth).user_id.user_id is None,
        reply != Ok::<u16, String>(STATUS_UNAUTHORIZED) ==> *final(auth) == *old(auth),
{
    match reply {
        Err(_) => Err(text("couldn't verify token")),
        Ok(s) => {
            if s == STATUS_OK {
                Ok(VerifyTokenResult::Authorized)
            } else if s == STATUS_BAD_REQUEST {
                Err(text("malformed token"))
            } else if s == STATUS_UNAUTHORIZED {
                auth.logout();
                Ok(VerifyTokenResult::Expired)
            } else {
                Err(text("invalid server response"))
            }
        },
    }
}

/// Reads the server's answer to a log-in request; `reply` is `Err` with the
/// transport's message when no response came. On success the token and the
/// user id are recorded; nothing else changes the state.
pub fn log_in_outcome(auth: &mut AuthenticationState, reply: Result<ApiReply, String>) -> (r: Result<
    LoginResult,
    String,
>)
    ensures
        match reply {
            Err(e) => r is Err && r->Err_0@ == "couldn't log in! "@ + e@ && *final(auth) == *old(
                auth,
            ),
            Ok(a) => if a.status == STATUS_OK {
                match a.success {
                    Some(body) => r == Ok::<LoginResult, String>(LoginResult::Authorized)
                        && final(auth).token.token == Some(body.token)
                        && final(auth).user_id.user_id == Some(body.id),
                    None => r is Err && r->Err_0@ == "invalid server response (c5d3)"@
                        && *final(auth) == *old(auth),
                }
            } else if a.status == STATUS_UNAUTHORIZED {
                r == Ok::<LoginResult, String>(LoginResult::Unauthorized) && *final(auth) == *old(
                    auth,
                )
            } else if a.status == STATUS_BAD_REQUEST {
                *final(auth) == *old(auth) && match a.bad_request {
                    None => r is Err && r->Err_0@ == "invalid server response (1908)"@,
                    Some(body) => if body.typ@ == "USER"@ {
                        r == Ok::<LoginResult, String>(LoginResult::UserDoesNotExist)
                    } else {
                        r is Err && r->Err_0@ == "invalid server response (7c63): "@ + body.typ@
                    },
                }
            } else {
                r is Err && r->Err_0@ == "authorization error "@ + a.reason@ && *final(auth)
                    == *old(auth)
            },
        },
{
    let a = match reply {
        Err(e) => return Err(text("couldn't log in! ").concat(e.as_str())),
        Ok(a) => a,
    };
    if a.status == STATUS_OK {
        match a.success {
            None => Err(text("invalid server response (c5d3)")),
            Some(body) => {
                auth.login(body.token, body.id);
                Ok(LoginResult::Authorized)
            },
        }
    } else if a.status == STATUS_UNAUTHORIZED {
        Ok(LoginResult::Unauthorized)
    } else if a.status == STATUS_BAD_REQUEST {
        match a.bad_request {
            None => Err(text("invalid server response (1908)")),
            Some(body) => {
                if same_text(&body.typ, "USER") {
                    Ok(LoginResult::UserDoesNotExist)
                } else {
                    Err(text("invalid server response (7c63): ").concat(body.typ.as_str()))
                }
            },
        }
    } else {
        Err(text("authorization error ").concat(a.reason.as_str()))
    }
}

} // verus!
