use vstd::prelude::*;

verus! {

/// An access credential: the bearer secret, the optional secret that renews
/// it, and the instant (in Unix seconds) at which it stops being accepted.
#[derive(Clone, Debug)]
pub struct Token {
    pub access_token: String,
    pub refresh_token: Option<String>,
    pub expires_at: i64,
}

/// The mathematical value of a [`Token`].
pub struct TokenModel {
    pub access_token: Seq<char>,
    pub refresh_token: Option<Seq<char>>,
    pub expires_at: int,
}

pub open spec fn opt_view(o: Option<String>) -> Option<Seq<char>> {
    match o {
        Some(s) => Some(s@),
        None => None,
    }
}

impl View for Token {
    type V = TokenModel;

    open spec fn view(&self) -> TokenModel {
        TokenModel {
            access_token: self.access_token@,
            refresh_token: opt_view(self.refresh_token),
            expires_at: self.expires_at as int,
        }
    }
}

pub open spec fn opt_token_view(o: Option<Token>) -> Option<TokenModel> {
    match o {
        Some(t) => Some(t@),
        None => None,
    }
}

/// Copies an optional string, keeping its contents.
pub fn copy_opt_string(o: &Option<String>) -> (r: Option<String>)
    ensures
        opt_view(r) == opt_view(*o),
{
    match o {
        Some(s) => Some(s.clone()),
        None => None,
    }
}

impl Token {
    pub fn new(access_token: String, refresh_token: Option<String>, expires_at: i64) -> (r: Token)
        ensures
            r.access_token@ == access_token@,
            opt_view(r.refresh_token) == opt_view(refresh_token),
            r.expires_at == expires_at,
    {
        Token { access_token, refresh_token, expires_at }
    }

    /// A copy of the token with the same secrets and expiry.
    pub fn duplicate(&self) -> (r: Token)
        ensures
            r@ == self@,
    {
        Token {
            access_token: self.access_token.clone(),
            refresh_token: copy_opt_string(&self.refresh_token),
            expires_at: self.expires_at,
        }
    }
}

/// The session as a value: the pending login attempt (its CSRF state and
/// PKCE verifier, each in its own slot) and the current token.
pub struct ContextModel {
    pub state: Option<Seq<char>>,
    pub verifier: Option<Seq<char>>,
    pub token: Option<TokenModel>,
}

/// The single session shared by the login endpoints and the reply loop.
///
/// The pending slots and the token slot are independent: writing one leaves
/// the others as they were.
pub struct Context {
    state: Option<String>,
    verifier: Option<String>,
    token: Option<Token>,
}

impl View for Context {
    type V = ContextModel;

    closed spec fn view(&self) -> ContextModel {
        ContextModel {
            state: opt_view(self.state),
            verifier: opt_view(self.verifier),
            token: opt_token_view(self.token),
        }
    }
}

impl Context {
    /// A session with no pending login and no token.
    pub fn new() -> (r: Context)
        ensures
            r@.state is None,
            r@.verifier is None,
            r@.token is None,
    {
        Context { state: None, verifier: None, token: None }
    }

    /// A session restored from its stored slots.
    pub fn restore(state: Option<String>, verifier: Option<String>, token: Option<Token>) -> (r:
        Context)
        ensures
            r@.state == opt_view(state),
            r@.verifier == opt_view(verifier),
            r@.token == opt_token_view(token),
    {
        Context { state, verifier, token }
    }

    /// The current token, if any.
    pub fn token(&self) -> (r: Option<Token>)
        ensures
            opt_token_view(r) == self@.token,
    {
        match &self.token {
            Some(t) => Some(t.duplicate()),
            None => None,
        }
    }

    /// Replaces the current token; the pending slots are untouched.
    pub fn set_token(&mut self, token: &Token)
        ensures
            final(self)@.token == Some(token@),
            final(self)@.state == old(self)@.state,
            final(self)@.verifier == old(self)@.verifier,
    {
        self.token = Some(token.duplicate());
    }

    /// The CSRF state of the pending login, if any.
    pub fn state(&self) -> (r: Option<String>)
        ensures
            opt_view(r) == self@.state,
    {
        copy_opt_string(&self.state)
    }

    /// Records the CSRF state of a new login; the other slots are untouched.
    pub fn set_state(&mut self, state: &String)
        ensures
            final(self)@.state == Some(state@),
            final(self)@.verifier == old(self)@.verifier,
            final(self)@.token == old(self)@.token,
    {
        self.state = Some(state.clone());
    }

    /// The PKCE verifier of the pending login, if any.
    pub fn pkce_verifier(&self) -> (r: Option<String>)
        ensures
            opt_view(r) == self@.verifier,
    {
        copy_opt_string(&self.verifier)
    }

    /// Records the PKCE verifier of a new login; the other slots are untouched.
    pub fn set_verifier(&mut self, verifier: &String)
        ensures
            final(self)@.verifier == Some(verifier@),
            final(self)@.state == old(self)@.state,
            final(self)@.token == old(self)@.token,
    {
        self.verifier = Some(verifier.clone());
    }

    /// Forgets the pending login; the token is untouched.
    pub fn clear_pending(&mut self)
        ensures
            final(self)@.state is None,
            final(self)@.verifier is None,
            final(self)@.token == old(self)@.token,
    {
        self.state = None;
        self.verifier = None;
    }
}

} // verus!
