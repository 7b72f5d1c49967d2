use vstd::prelude::*;

verus! {

/// A holder of one optional value.
pub trait OptionalState<T> {
    spec fn value(&self) -> Option<T>;

    /// A copy of the held value.
    fn get(&self) -> (r: Option<T>)
        ensures
            r == self.value(),
    ;

    /// Replaces the held value.
    fn set(&mut self, value: Option<T>)
        ensures
            final(self).value() == value,
    ;
}

fn copy_of(v: &Option<String>) -> (r: Option<String>)
    ensures
        r == *v,
{
    match v {
        Some(s) => Some(s.clone()),
        None => None,
    }
}

/// The session token, if logged in.
pub struct TokenState {
    pub token: Option<String>,
}

impl TokenState {
    /// Whether a token is held.
    pub fn is_logged_in(&self) -> (r: bool)
        ensures
            r == self.token is Some,
    {
        self.token.is_some()
    }
}

impl OptionalState<String> for TokenState {
    open spec fn value(&self) -> Option<String> {
        self.token
    }

    fn get(&self) -> (r: Option<String>) {
        copy_of(&self.token)
    }

    fn set(&mut self, value: Option<String>) {
        self.token = value;
    }
}

/// The logged-in user's id, if logged in.
pub struct UserIdState {
    pub user_id: Option<String>,
}

impl OptionalState<String> for UserIdState {
    open spec fn value(&self) -> Option<String> {
        self.user_id
    }

    fn get(&self) -> (r: Option<String>) {
        copy_of(&self.user_id)
    }

    fn set(&mut self, value: Option<String>) {
        self.user_id = value;
    }
}

/// The state of the logged-in user.
pub struct AuthenticationState {
    pub token: TokenState,
    pub user_id: UserIdState,
}

impl AuthenticationState {
    /// Logged out: neither token nor user id.
    pub fn new() -> (r: AuthenticationState)
        ensures
            r.token.token is None,
            r.user_id.user_id is None,
    {
        AuthenticationState {
            token: TokenState { token: None },
            user_id: UserIdState { user_id: None },
        }
    }

    /// A copy of the token.
    pub fn get_token(&self) -> (r: Option<String>)
        ensures
            r == self.token.token,
    {
        self.token.get()
    }

    /// A copy of the user id.
    pub fn get_user_id(&self) -> (r: Option<String>)
        ensures
            r == self.user_id.user_id,
    {
        self.user_id.get()
    }

    /// Forgets the token and the user id.
    pub fn logout(&mut self)
        ensures
            final(self).token.token is None,
            final(self).user_id.user_id is None,
    {
        self.token.set(None);
        self.user_id.set(None);
    }

    /// Records the token and the user id of a successful log-in.
    pub fn login(&mut self, token: String, user_id: String)
        ensures
            final(self).token.token == Some(token),
            final(self).user_id.user_id == Some(user_id),
    {
        self.token.set(Some(token));
        self.user_id.set(Some(user_id));
    }
}

impl Default for AuthenticationState {
    fn default() -> (r: AuthenticationState)
        ensures
            r.token.token is None,
            r.user_id.user_id is None,
    {
        AuthenticationState::new()
    }
}

} // verus!
