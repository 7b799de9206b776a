use vstd::prelude::*;
use crate::oauth2::{after_callback, after_exchange, after_login, callback_outcome, CallbackError};
use crate::session::{Context, ContextModel, Token, TokenModel, opt_token_view};

verus! {

/// How many seconds before its stated expiry a token is already treated as
/// expired, so that it does not run out between the check and its use.
pub const REFRESH_MARGIN_SECS: i64 = 60;

/// Whether `t` must be renewed before use at time `now` (Unix seconds).
pub open spec fn expired(t: TokenModel, now: int) -> bool {
    t.expires_at <= now + REFRESH_MARGIN_SECS
}

impl Token {
    /// Whether this token must be renewed before use at time `now`.
    pub fn is_expired(&self, now: i64) -> (r: bool)
        ensures
            r == expired(self@, now as int),
    {
        (self.expires_at as i128) <= (now as i128) + (REFRESH_MARGIN_SECS as i128)
    }
}

/// Why no usable token could be had.
#[derive(Clone, Copy, Debug, PartialEq, Eq)]
pub enum AuthError {
    /// Nobody has completed a login yet.
    NoToken,
    /// The token had expired and could not be renewed.
    RefreshFailed,
}

/// What the guard does next with the stored token.
pub enum GuardStep {
    /// The token is fresh: use it as it is.
    Use(Token),
    /// The token has expired: renew it with this refresh secret.
    Refresh(String),
    /// No token can be used.
    Fail(AuthError),
}

/// The guard's decision as a value.
pub enum GuardStepModel {
    Use(TokenModel),
    Refresh(Seq<char>),
    Fail(AuthError),
}

pub open spec fn step_model(s: GuardStep) -> GuardStepModel {
    match s {
        GuardStep::Use(t) => GuardStepModel::Use(t@),
        GuardStep::Refresh(r) => GuardStepModel::Refresh(r@),
        GuardStep::Fail(e) => GuardStepModel::Fail(e),
    }
}

/// The decision on a stored token at time `now`: none fails with `NoToken`;
/// a fresh one is used; an expired one is renewed with its refresh secret, or
/// fails with `RefreshFailed` when it has none.
pub open spec fn guard_step(token: Option<TokenModel>, now: int) -> GuardStepModel {
    match token {
        None => GuardStepModel::Fail(AuthError::NoToken),
        Some(t) => if !expired(t, now) {
            GuardStepModel::Use(t)
        } else {
            match t.refresh_token {
                Some(r) => GuardStepModel::Refresh(r),
                None => GuardStepModel::Fail(AuthError::RefreshFailed),
            }
        },
    }
}

/// Decides how to obtain a usable token from the session at time `now`.
pub fn check_token(ctx: &Context, now: i64) -> (r: GuardStep)
    ensures
        step_model(r) == guard_step(ctx@.token, now as int),
{
    match ctx.token() {
        None => GuardStep::Fail(AuthError::NoToken),
        Some(t) => {
            if !t.is_expired(now) {
                GuardStep::Use(t)
            } else {
                match t.refresh_token {
                    Some(r) => GuardStep::Refresh(r),
                    None => GuardStep::Fail(AuthError::RefreshFailed),
                }
            }
        },
    }
}

/// The session after a renewal returned `refreshed`: a new token replaces
/// the old one; a failure keeps the old one for inspection or a later retry.
pub open spec fn after_refresh(m: ContextModel, refreshed: Option<TokenModel>) -> ContextModel {
    match refreshed {
        Some(t) => ContextModel { token: Some(t), ..m },
        None => m,
    }
}

/// Stores the result of a renewal before anyone uses it, and hands back the
/// token to use, or `RefreshFailed`.
pub fn finish_refresh(ctx: &mut Context, refreshed: Option<Token>) -> (r: Result<Token, AuthError>)
    ensures
        final(ctx)@ == after_refresh(old(ctx)@, opt_token_view(refreshed)),
        match refreshed {
            Some(t) => r matches Ok(u) && u@ == t@,
            None => r == Err::<Token, AuthError>(AuthError::RefreshFailed),
        },
{
    match refreshed {
        Some(t) => {
            ctx.set_token(&t);
            Ok(t)
        },
        None => Err(AuthError::RefreshFailed),
    }
}

/// The token that a caller receives, given the guard's decision and, where
/// it asked for one, the renewal's result.
pub open spec fn usable_token(step: GuardStepModel, refreshed: Option<TokenModel>) -> Result<TokenModel, AuthError> {
    match step {
        GuardStepModel::Use(t) => Ok(t),
        GuardStepModel::Refresh(_) => match refreshed {
            Some(t) => Ok(t),
            None => Err(AuthError::RefreshFailed),
        },
        GuardStepModel::Fail(e) => Err(e),
    }
}

/// A login whose callback matches and whose exchange returns `token` stores
/// exactly that token, after which the guard never asks for a new login: it
/// uses the token while fresh, and otherwise renews it when it can.
pub proof fn lemma_login_gives_usable_token(
    m: ContextModel,
    state: Seq<char>,
    verifier: Seq<char>,
    token: TokenModel,
    now: int,
)
    ensures
        callback_outcome(after_login(m, state, verifier), state) == Ok::<Seq<char>, CallbackError>(verifier),
        ({
            let done = after_exchange(after_callback(after_login(m, state, verifier), state), Some(token));
            &&& done.token == Some(token)
            &&& guard_step(done.token, now) != GuardStepModel::Fail(AuthError::NoToken)
            &&& !expired(token, now) ==> guard_step(done.token, now) == GuardStepModel::Use(token)
        }),
{
}

/// An expired token that can be renewed is renewed once, not used: the
/// caller then receives the renewed token, which is stored, so that a later
/// check at which it is still fresh uses it without another renewal.
pub proof fn lemma_expired_token_refreshed(m: ContextModel, now: int, renewed: TokenModel, later: int)
    requires
        m.token matches Some(t) && expired(t, now) && t.refresh_token is Some,
    ensures
        guard_step(m.token, now) == GuardStepModel::Refresh(m.token.unwrap().refresh_token.unwrap()),
        usable_token(guard_step(m.token, now), Some(renewed)) == Ok::<TokenModel, AuthError>(renewed),
        after_refresh(m, Some(renewed)).token == Some(renewed),
        !expired(renewed, later) ==> guard_step(after_refresh(m, Some(renewed)).token, later)
            == GuardStepModel::Use(renewed),
{
}

/// A token that is still fresh is used as it is, with no renewal.
pub proof fn lemma_fresh_token_used(m: ContextModel, now: int, renewed: Option<TokenModel>)
    requires
        m.token matches Some(t) && !expired(t, now),
    ensures
        guard_step(m.token, now) == GuardStepModel::Use(m.token.unwrap()),
        usable_token(guard_step(m.token, now), renewed) == Ok::<TokenModel, AuthError>(m.token.unwrap()),
{
}

} // verus!
