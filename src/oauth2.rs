use vstd::prelude::*;
use twitter_v2::authorization::{Oauth2Client, Scope};
use twitter_v2::oauth2::{PkceCodeChallenge, PkceCodeVerifier};
use crate::session::{Context, ContextModel, Token, TokenModel};

verus! {

#[verifier::external_type_specification]
#[verifier::external_body]
pub struct ExOauth2Client(Oauth2Client);

/// A permission that the login asks the platform to grant.
#[derive(Clone, Copy, Debug, PartialEq, Eq)]
pub enum Permission {
    TweetRead,
    TweetWrite,
    UsersRead,
    OfflineAccess,
}

/// The permissions a login requests: read and write posts, read profiles,
/// and offline access, which makes the platform issue a refresh secret.
pub fn requested_scopes() -> (r: Vec<Permission>)
    ensures
        r@ == requested_permissions(),
{
    vec![Permission::TweetRead, Permission::TweetWrite, Permission::UsersRead, Permission::OfflineAccess]
}

/// Where the browser is sent to give consent.
pub struct Redirect {
    pub location: String,
}

/// Whether `c` is a character of URL-safe base64, which form encoding
/// leaves as it is.
pub open spec fn url_safe_char(c: char) -> bool {
    ('A' <= c && c <= 'Z') || ('a' <= c && c <= 'z') || ('0' <= c && c <= '9') || c == '-' || c == '_'
}

pub open spec fn url_safe(s: Seq<char>) -> bool {
    forall|i: int| 0 <= i < s.len() ==> url_safe_char(#[trigger] s[i])
}

/// Whether `part` occurs somewhere in `text`.
pub open spec fn contains(text: Seq<char>, part: Seq<char>) -> bool {
    exists|i: int| 0 <= i && i + part.len() <= text.len() && #[trigger] text.subrange(i, i + part.len()) == part
}

pub open spec fn starts_with(text: Seq<char>, part: Seq<char>) -> bool {
    part.len() <= text.len() && text.subrange(0, part.len() as int) == part
}

pub open spec fn ends_with(text: Seq<char>, part: Seq<char>) -> bool {
    part.len() <= text.len() && text.subrange(text.len() - part.len(), text.len() as int) == part
}

/// The PKCE challenge of `verifier`: its SHA-256 digest in URL-safe base64.
pub uninterp spec fn pkce_challenge_of(verifier: Seq<char>) -> Seq<char>;

/// The platform's consent page, up to the client's identifier.
pub open spec fn authorize_prefix() -> Seq<char> {
    "https://twitter.com/i/oauth2/authorize?response_type=code&client_id="@
}

/// The part of the consent URL that binds it to one login: the CSRF state,
/// the challenge, and the challenge's method.
pub open spec fn binding_segment(state: Seq<char>, challenge: Seq<char>) -> Seq<char> {
    "&state="@ + state + "&code_challenge="@ + challenge + "&code_challenge_method=S256&redirect_uri="@
}

/// The platform's name of a permission.
pub open spec fn scope_name(p: Permission) -> Seq<char> {
    match p {
        Permission::TweetRead => "tweet.read"@,
        Permission::TweetWrite => "tweet.write"@,
        Permission::UsersRead => "users.read"@,
        Permission::OfflineAccess => "offline.access"@,
    }
}

/// The value of the URL's `scope` parameter: the names, form-encoded and
/// joined by `+`.
pub open spec fn scope_value(ps: Seq<Permission>) -> Seq<char>
    decreases ps.len(),
{
    if ps.len() == 0 {
        Seq::empty()
    } else if ps.len() == 1 {
        scope_name(ps[0])
    } else {
        scope_value(ps.drop_last()) + "+"@ + scope_name(ps.last())
    }
}

/// Relies on oauth2's `PkceCodeChallenge::new_random_sha256`: the verifier is
/// 32 random bytes in URL-safe base64 without padding, so 43 characters. The
/// challenge drawn with it is dropped; it is derived again where the URL is built.
#[verifier::external_body]
fn new_pkce_verifier() -> (r: String)
    ensures
        r@.len() == 43,
        url_safe(r@),
{
    let (_challenge, verifier) = PkceCodeChallenge::new_random_sha256();
    verifier.secret().clone()
}

/// Relies on oauth2's `PkceCodeChallenge::from_code_verifier_sha256` (which
/// panics unless the verifier has 43 to 128 bytes) and twitter_v2's
/// `Oauth2Client::auth_url`. The URL is the consent page with the form-encoded
/// pairs `response_type`, `client_id`, `state`, `code_challenge`,
/// `code_challenge_method`, `redirect_uri` and, if any scope is asked, `scope`
/// last. The state is a fresh random 16 bytes in URL-safe base64, so 22 characters.
#[verifier::external_body]
fn authorization_url(client: &Oauth2Client, verifier: &String, scopes: &Vec<Permission>) -> (r: (String, String))
    requires
        43 <= verifier@.len() <= 128,
        url_safe(verifier@),
    ensures
        r.1@.len() == 22,
        url_safe(r.1@),
        starts_with(r.0@, authorize_prefix()),
        contains(r.0@, binding_segment(r.1@, pkce_challenge_of(verifier@))),
        scopes@.len() > 0 ==> ends_with(r.0@, "&scope="@ + scope_value(scopes@)),
{
    let challenge = PkceCodeChallenge::from_code_verifier_sha256(&PkceCodeVerifier::new(verifier.clone()));
    let (url, state) = client.auth_url(
        challenge,
        scopes.iter().map(
            |p| match p {
                Permission::TweetRead => Scope::TweetRead,
                Permission::TweetWrite => Scope::TweetWrite,
                Permission::UsersRead => Scope::UsersRead,
                Permission::OfflineAccess => Scope::OfflineAccess,
            },
        ),
    );
    (url.to_string(), state.secret().clone())
}

/// The permissions that a login asks for, as values.
pub open spec fn requested_permissions() -> Seq<Permission> {
    seq![Permission::TweetRead, Permission::TweetWrite, Permission::UsersRead, Permission::OfflineAccess]
}

/// What the consent URL of a login with CSRF state `state` and PKCE
/// verifier `verifier` carries: the state, the verifier's S256 challenge, and
/// exactly the requested scopes.
pub open spec fn consent_url(url: Seq<char>, state: Seq<char>, verifier: Seq<char>) -> bool {
    &&& state.len() == 22 && url_safe(state)
    &&& verifier.len() == 43 && url_safe(verifier)
    &&& starts_with(url, authorize_prefix())
    &&& contains(url, binding_segment(state, pkce_challenge_of(verifier)))
    &&& ends_with(url, "&scope="@ + scope_value(requested_permissions()))
}

/// The session after a login that produced `state` and `verifier`.
pub open spec fn after_login(m: ContextModel, state: Seq<char>, verifier: Seq<char>) -> ContextModel {
    ContextModel { state: Some(state), verifier: Some(verifier), token: m.token }
}

/// Records a new pending login and answers with the redirect to `url`.
///
/// Any earlier pending login is replaced; the token is untouched.
pub fn start_login(ctx: &mut Context, url: String, state: &String, verifier: &String) -> (r: Redirect)
    ensures
        final(ctx)@ == after_login(old(ctx)@, state@, verifier@),
        r.location@ == url@,
{
    ctx.set_state(state);
    ctx.set_verifier(verifier);
    Redirect { location: url }
}

/// Starts a login: draws a PKCE verifier, builds the consent URL with its
/// challenge, the requested scopes and a random CSRF state, records the state
/// and the verifier as pending (replacing any earlier pair), and redirects
/// to the URL.
pub fn login(ctx: &mut Context, client: &Oauth2Client) -> (r: Redirect)
    ensures
        exists|s: Seq<char>, v: Seq<char>|
            final(ctx)@ == after_login(old(ctx)@, s, v) && consent_url(r.location@, s, v),
{
    let verifier = new_pkce_verifier();
    let scopes = requested_scopes();
    let (url, state) = authorization_url(client, &verifier, &scopes);
    start_login(ctx, url, &state, &verifier)
}

/// The query of the redirect that completes a login.
#[derive(Clone, Debug)]
pub struct CallbackParams {
    pub code: String,
    pub state: String,
}

/// Why a callback did not authorize the session.
#[derive(Clone, Copy, Debug, PartialEq, Eq)]
pub enum CallbackError {
    /// No login is pending (never started, or already used).
    NoPendingAuth,
    /// The returned state differs from the pending one: a possible forgery.
    StateMismatch,
    /// The platform did not exchange the code for a token.
    ExchangeFailed,
}

impl CallbackError {
    /// The HTTP status that reports this error.
    pub fn status(&self) -> (r: u16)
        ensures
            r == status_of(*self),
    {
        match self {
            CallbackError::StateMismatch => 400,
            _ => 500,
        }
    }
}

/// A client error for a forged state, a server error otherwise.
pub open spec fn status_of(e: CallbackError) -> u16 {
    match e {
        CallbackError::StateMismatch => 400,
        _ => 500,
    }
}

/// What is handed to the platform's token endpoint.
pub struct Exchange {
    pub code: String,
    pub verifier: String,
}

/// The outcome of checking a callback against the session: the verifier to
/// exchange the code with, or the error.
pub open spec fn callback_outcome(m: ContextModel, state: Seq<char>) -> Result<Seq<char>, CallbackError> {
    match m.state {
        None => Err(CallbackError::NoPendingAuth),
        Some(s) => if s != state {
            Err(CallbackError::StateMismatch)
        } else {
            match m.verifier {
                None => Err(CallbackError::NoPendingAuth),
                Some(v) => Ok(v),
            }
        },
    }
}

/// The session after checking a callback: a matching state uses up the
/// pending login; otherwise nothing changes.
pub open spec fn after_callback(m: ContextModel, state: Seq<char>) -> ContextModel {
    if m.state == Some(state) {
        ContextModel { state: None, verifier: None, token: m.token }
    } else {
        m
    }
}

/// Checks the redirect's state against the pending login.
///
/// With no pending login the callback fails; with a different state it is
/// rejected and the pending login is kept. A matching state consumes the
/// pending login, so that the same redirect cannot be used twice, and yields
/// the code and the verifier to exchange. The token is never touched here.
pub fn callback(ctx: &mut Context, params: &CallbackParams) -> (r: Result<Exchange, CallbackError>)
    ensures
        final(ctx)@ == after_callback(old(ctx)@, params.state@),
        match callback_outcome(old(ctx)@, params.state@) {
            Ok(v) => r matches Ok(x) && x.code@ == params.code@ && x.verifier@ == v,
            Err(e) => r == Err::<Exchange, CallbackError>(e),
        },
{
    let state = match ctx.state() {
        Some(s) => s,
        None => {
            return Err(CallbackError::NoPendingAuth);
        },
    };
    if state != params.state {
        return Err(CallbackError::StateMismatch);
    }
    let verifier = ctx.pkce_verifier();
    ctx.clear_pending();
    match verifier {
        Some(v) => Ok(Exchange { code: params.code.clone(), verifier: v }),
        None => Err(CallbackError::NoPendingAuth),
    }
}

/// The session after the token exchange returned `exchanged`.
pub open spec fn after_exchange(m: ContextModel, exchanged: Option<TokenModel>) -> ContextModel {
    match exchanged {
        Some(t) => ContextModel { token: Some(t), ..m },
        None => m,
    }
}

/// Finishes a login with the token exchange's result: a token is stored
/// and the callback succeeds; a failed exchange leaves the session as it was.
pub fn complete_callback(ctx: &mut Context, exchanged: Option<Token>) -> (r: Result<(), CallbackError>)
    ensures
        final(ctx)@ == after_exchange(old(ctx)@, crate::session::opt_token_view(exchanged)),
        r == (match exchanged {
            Some(_) => Ok(()),
            None => Err(CallbackError::ExchangeFailed),
        }),
{
    match exchanged {
        Some(t) => {
            ctx.set_token(&t);
            Ok(())
        },
        None => Err(CallbackError::ExchangeFailed),
    }
}

/// A callback whose state differs from the pending login's is a client
/// error, and leaves the session, its token included, exactly as it was.
pub proof fn lemma_forged_state_rejected(m: ContextModel, state: Seq<char>, verifier: Seq<char>, returned: Seq<char>)
    requires
        returned != state,
    ensures
        callback_outcome(after_login(m, state, verifier), returned) == Err::<Seq<char>, CallbackError>(
            CallbackError::StateMismatch,
        ),
        status_of(CallbackError::StateMismatch) == 400,
        after_callback(after_login(m, state, verifier), returned) == after_login(m, state, verifier),
{
}

/// After two logins, only the second one's state completes a callback, and
/// it yields the second one's verifier; the first one's state is rejected.
pub proof fn lemma_second_login_wins(
    m: ContextModel,
    state1: Seq<char>,
    verifier1: Seq<char>,
    state2: Seq<char>,
    verifier2: Seq<char>,
)
    ensures
        callback_outcome(after_login(after_login(m, state1, verifier1), state2, verifier2), state2)
            == Ok::<Seq<char>, CallbackError>(verifier2),
        state1 != state2 ==> callback_outcome(
            after_login(after_login(m, state1, verifier1), state2, verifier2),
            state1,
        ) == Err::<Seq<char>, CallbackError>(CallbackError::StateMismatch),
{
}

/// Replaying a callback that already succeeded is refused, because the
/// pending login was used up, and the stored token stays as written.
pub proof fn lemma_replayed_callback_refused(m: ContextModel, state: Seq<char>, verifier: Seq<char>, token: TokenModel)
    ensures
        ({
            let done = after_exchange(after_callback(after_login(m, state, verifier), state), Some(token));
            &&& callback_outcome(done, state) == Err::<Seq<char>, CallbackError>(CallbackError::NoPendingAuth)
            &&& after_callback(done, state) == done
            &&& done.token == Some(token)
        }),
{
}

} // verus!
