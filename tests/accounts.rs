use chat_client::auth::{AuthenticationState, OptionalState, TokenState, UserIdState};
use chat_client::command::{
    create_user_finish, create_user_start, log_in_outcome, verify_token_outcome, verify_token_start, LoginResult,
    VerifyTokenResult,
};
use chat_client::common::{ApiReply, BadRequestResponseBody};
use chat_client::config::{Config, ConfigError};
use chat_client::password::{is_valid_password_char, validate_password, PasswordCriteria, PasswordValidation};
use chat_client::user::{create_user_outcome, create_user_precheck, AuthenticationSuccessResponse, CreateUserResult};
use chat_client::username::{
    is_valid_username_char, user_exists_from_reply, user_exists_precheck, validate_username, UsernameCriteria,
    UsernameValidation,
};

fn config(api: &str) -> Config {
    Config::new("ws://localhost:80/ws".to_string(), api.to_string(), 5, 5).ok().unwrap()
}

fn reply(status: u16) -> ApiReply {
    ApiReply { status, reason: String::new(), success: None, bad_request: None }
}

fn success_body() -> AuthenticationSuccessResponse {
    AuthenticationSuccessResponse { id: "u1".to_string(), token: "t1".to_string() }
}

#[test]
fn api_url_joins_with_one_slash() {
    let c = config("http://localhost:80/");
    assert_eq!(c.get_api_url("/auth/create"), "http://localhost:80/auth/create");
    assert_eq!(c.get_api_url("user/me"), "http://localhost:80/user/me");
    let c = config("http://host///");
    assert_eq!(c.get_api_url("///x"), "http://host/x");
    assert_eq!(c.get_api_url(""), "http://host/");
    let c = config("");
    assert_eq!(c.get_api_url("a/"), "/a/");
}

#[test]
fn config_checks_target_and_periods() {
    assert!(matches!(
        Config::new("not a url".to_string(), String::new(), 5, 5),
        Err(ConfigError::InvalidTarget)
    ));
    assert!(matches!(
        Config::new("ws://localhost/ws".to_string(), String::new(), 0, 5),
        Err(ConfigError::ZeroPingInterval)
    ));
    assert!(matches!(
        Config::new("ws://localhost/ws".to_string(), String::new(), 5, 0),
        Err(ConfigError::ZeroReconnectDelay)
    ));
    let c = config("http://a");
    assert_eq!(c.ping_interval, 5);
    assert_eq!(c.ws_target().unwrap().as_str(), "ws://localhost/ws");
}

#[test]
fn password_all_criteria_met() {
    assert_eq!(validate_password("Abcdef1!"), PasswordValidation::Valid);
    assert!(validate_password("Abcdef1!").is_valid());
}

#[test]
fn password_criteria_reported() {
    match validate_password("abc") {
        PasswordValidation::Invalid(c) => {
            assert_eq!(
                c,
                PasswordCriteria {
                    charset: true,
                    length: false,
                    alpha: true,
                    digit: false,
                    upper: false,
                    lower: true,
                    special: false,
                }
            );
        }
        PasswordValidation::Valid => panic!("expected invalid"),
    }
}

#[test]
fn password_non_ascii_letter_counts_as_alphabetic_but_breaks_charset() {
    match validate_password("ÉÉÉÉ1!aA") {
        PasswordValidation::Invalid(c) => {
            assert!(!c.charset);
            assert!(c.alpha);
            assert!(c.length);
            assert!(c.digit && c.upper && c.lower && c.special);
        }
        PasswordValidation::Valid => panic!("expected invalid"),
    }
    match validate_password("ab") {
        PasswordValidation::Invalid(c) => assert!(c.alpha && !c.digit),
        _ => panic!("expected invalid"),
    }
}

#[test]
fn password_length_counts_bytes() {
    let long = "Aa1!".repeat(128);
    assert!(validate_password(&long).is_valid());
    let too_long = format!("{}x", long);
    assert!(!validate_password(&too_long).is_valid());
    match validate_password("é1!Aa") {
        PasswordValidation::Invalid(c) => assert!(!c.length),
        _ => panic!("expected invalid"),
    }
}

#[test]
fn password_chars() {
    assert!(is_valid_password_char('a'));
    assert!(is_valid_password_char('~'));
    assert!(is_valid_password_char(' '));
    assert!(!is_valid_password_char('é'));
    assert!(!is_valid_password_char('\t'));
    let v = PasswordValidation::new(PasswordCriteria {
        charset: true,
        length: true,
        alpha: true,
        digit: true,
        upper: true,
        lower: false,
        special: true,
    });
    assert!(!v.is_valid());
}

#[test]
fn usernames() {
    assert_eq!(validate_username("user_1"), UsernameValidation::Valid);
    assert_eq!(
        validate_username("ab"),
        UsernameValidation::Invalid(UsernameCriteria { length: false, charset: true })
    );
    assert_eq!(
        validate_username("bad name"),
        UsernameValidation::Invalid(UsernameCriteria { length: true, charset: false })
    );
    assert!(validate_username(&"a".repeat(24)).is_valid());
    assert!(!validate_username(&"a".repeat(25)).is_valid());
    assert!(is_valid_username_char('-'));
    assert!(!is_valid_username_char('.'));
    assert!(UsernameValidation::new(UsernameCriteria { length: true, charset: true }).is_valid());
}

#[test]
fn user_lookup_replies() {
    assert!(user_exists_from_reply(Some(200)));
    assert!(!user_exists_from_reply(Some(404)));
    assert!(!user_exists_from_reply(None));
}

#[test]
fn token_and_user_id_state() {
    let mut t = TokenState { token: None };
    assert!(!t.is_logged_in());
    t.set(Some("x".to_string()));
    assert!(t.is_logged_in());
    assert_eq!(t.get(), Some("x".to_string()));
    let mut u = UserIdState { user_id: None };
    u.set(Some("id".to_string()));
    assert_eq!(u.get(), Some("id".to_string()));
    let mut a = AuthenticationState::default();
    assert_eq!(a.get_token(), None);
    a.login("tok".to_string(), "uid".to_string());
    assert_eq!(a.get_token(), Some("tok".to_string()));
    assert_eq!(a.get_user_id(), Some("uid".to_string()));
    a.logout();
    assert_eq!(a.get_token(), None);
    assert_eq!(a.get_user_id(), None);
}

#[test]
fn create_user_checks_password_first() {
    assert!(matches!(create_user_precheck("x", "short"), Some(CreateUserResult::InvalidPassword(_))));
    assert!(matches!(
        create_user_precheck("x", "Abcdef1!"),
        Some(CreateUserResult::InvalidUsername(UsernameCriteria { length: false, charset: true }))
    ));
    assert!(create_user_precheck("someone", "Abcdef1!").is_none());
    let mut a = AuthenticationState::new();
    a.login("t".to_string(), "u".to_string());
    assert!(matches!(create_user_start(&a, "someone", "Abcdef1!"), Some(CreateUserResult::AlreadyLoggedIn)));
    a.logout();
    assert!(create_user_start(&a, "someone", "Abcdef1!").is_none());
}

#[test]
fn create_user_replies() {
    let mut ok = reply(200);
    ok.success = Some(success_body());
    match create_user_outcome(Ok(ok)) {
        Ok(CreateUserResult::Success(b)) => assert_eq!(b.token, "t1"),
        _ => panic!("expected success"),
    }
    assert_eq!(create_user_outcome(Ok(reply(200))).err().unwrap(), "malformed server response");
    assert_eq!(create_user_outcome(Ok(reply(400))).err().unwrap(), "malformed server response");
    for (typ, msg) in [
        ("JSON", "invalid request"),
        ("USERNAME", "invalid username"),
        ("PASSWORD", "invalid password"),
        ("DUPLICATE", "user already exists"),
        ("OTHER", "invalid server response"),
    ] {
        let mut r = reply(400);
        r.bad_request = Some(BadRequestResponseBody { typ: typ.to_string() });
        assert_eq!(create_user_outcome(Ok(r)).err().unwrap(), msg);
    }
    assert_eq!(create_user_outcome(Ok(reply(500))).err().unwrap(), "invalid server response");
    assert_eq!(create_user_outcome(Err("refused".to_string())).err().unwrap(), "refused");
}

#[test]
fn create_user_success_records_token() {
    let mut a = AuthenticationState::new();
    let r = create_user_finish(&mut a, Ok(CreateUserResult::Success(success_body())));
    assert!(matches!(r, Ok(CreateUserResult::Success(_))));
    assert_eq!(a.get_token(), Some("t1".to_string()));
    assert_eq!(a.get_user_id(), None);
    let mut b = AuthenticationState::new();
    let r = create_user_finish(&mut b, Err("x".to_string()));
    assert_eq!(r.err().unwrap(), "x");
    assert_eq!(b.get_token(), None);
}

#[test]
fn verify_token_replies() {
    let mut a = AuthenticationState::new();
    a.login("t".to_string(), "u".to_string());
    assert_eq!(verify_token_outcome(&mut a, Ok(200)), Ok(VerifyTokenResult::Authorized));
    assert_eq!(verify_token_outcome(&mut a, Ok(400)), Err("malformed token".to_string()));
    assert_eq!(verify_token_outcome(&mut a, Ok(503)), Err("invalid server response".to_string()));
    assert_eq!(verify_token_outcome(&mut a, Err("e".to_string())), Err("couldn't verify token".to_string()));
    assert_eq!(a.get_token(), Some("t".to_string()));
    assert_eq!(verify_token_outcome(&mut a, Ok(401)), Ok(VerifyTokenResult::Expired));
    assert_eq!(a.get_token(), None);
    assert_eq!(a.get_user_id(), None);
}

#[test]
fn log_in_replies() {
    let mut a = AuthenticationState::new();
    let mut ok = reply(200);
    ok.success = Some(success_body());
    assert_eq!(log_in_outcome(&mut a, Ok(ok)), Ok(LoginResult::Authorized));
    assert_eq!(a.get_token(), Some("t1".to_string()));
    assert_eq!(a.get_user_id(), Some("u1".to_string()));

    let mut b = AuthenticationState::new();
    assert_eq!(log_in_outcome(&mut b, Ok(reply(200))), Err("invalid server response (c5d3)".to_string()));
    assert_eq!(log_in_outcome(&mut b, Ok(reply(401))), Ok(LoginResult::Unauthorized));
    assert_eq!(log_in_outcome(&mut b, Ok(reply(400))), Err("invalid server response (1908)".to_string()));
    let mut r = reply(400);
    r.bad_request = Some(BadRequestResponseBody { typ: "USER".to_string() });
    assert_eq!(log_in_outcome(&mut b, Ok(r)), Ok(LoginResult::UserDoesNotExist));
    let mut r = reply(400);
    r.bad_request = Some(BadRequestResponseBody { typ: "JSON".to_string() });
    assert_eq!(log_in_outcome(&mut b, Ok(r)), Err("invalid server response (7c63): JSON".to_string()));
    let mut r = reply(418);
    r.reason = "I'm a teapot".to_string();
    assert_eq!(log_in_outcome(&mut b, Ok(r)), Err("authorization error I'm a teapot".to_string()));
    assert_eq!(
        log_in_outcome(&mut b, Err("refused".to_string())),
        Err("couldn't log in! refused".to_string())
    );
    assert_eq!(b.get_token(), None);
}

#[test]
fn password_unicode_letters_and_digits_count() {
    match validate_password("ÉÉÉÉÉ!x") {
        PasswordValidation::Invalid(c) => {
            assert!(c.alpha);
            assert!(!c.upper);
            assert!(!c.digit);
        }
        _ => panic!("expected invalid"),
    }
    match validate_password("٣!!!!!!!") {
        PasswordValidation::Invalid(c) => {
            assert!(c.digit);
            assert!(!c.alpha);
            assert!(!c.charset);
        }
        _ => panic!("expected invalid"),
    }
}

#[test]
fn checks_owed_before_requests() {
    let mut a = AuthenticationState::new();
    assert_eq!(verify_token_start(&a), Some(VerifyTokenResult::NotLoggedIn));
    a.login("t".to_string(), "u".to_string());
    assert_eq!(verify_token_start(&a), None);
    assert_eq!(user_exists_precheck("no"), Some(false));
    assert_eq!(user_exists_precheck("bad name"), Some(false));
    assert_eq!(user_exists_precheck("someone"), None);
}
