use statmuse_bot::guard::{check_token, finish_refresh, AuthError, GuardStep};
use statmuse_bot::oauth2::{
    callback, complete_callback, login, requested_scopes, start_login, CallbackError,
    CallbackParams, Permission,
};
use statmuse_bot::session::{Context, Token};
use twitter_v2::authorization::Oauth2Client;
use twitter_v2::oauth2::{PkceCodeChallenge, PkceCodeVerifier};

fn token(access: &str, refresh: Option<&str>, expires_at: i64) -> Token {
    Token::new(access.to_string(), refresh.map(|r| r.to_string()), expires_at)
}

fn params(code: &str, state: &str) -> CallbackParams {
    CallbackParams { code: code.to_string(), state: state.to_string() }
}

fn pending(state: &str, verifier: &str) -> Context {
    let mut ctx = Context::new();
    start_login(&mut ctx, "https://example.com/consent".to_string(), &state.to_string(), &verifier.to_string());
    ctx
}

#[test]
fn new_context_is_empty() {
    let ctx = Context::new();
    assert!(ctx.state().is_none());
    assert!(ctx.pkce_verifier().is_none());
    assert!(ctx.token().is_none());
}

#[test]
fn slots_are_independent() {
    let mut ctx = Context::new();
    ctx.set_token(&token("a", Some("r"), 10));
    ctx.set_state(&"s".to_string());
    ctx.set_verifier(&"v".to_string());
    assert_eq!(ctx.token().unwrap().access_token, "a");
    ctx.clear_pending();
    assert!(ctx.state().is_none());
    assert!(ctx.pkce_verifier().is_none());
    assert_eq!(ctx.token().unwrap().refresh_token.as_deref(), Some("r"));
}

#[test]
fn start_login_records_pending_and_redirects() {
    let mut ctx = Context::new();
    ctx.set_token(&token("kept", None, 5));
    let r = start_login(&mut ctx, "https://x/y".to_string(), &"st".to_string(), &"ve".to_string());
    assert_eq!(r.location, "https://x/y");
    assert_eq!(ctx.state().as_deref(), Some("st"));
    assert_eq!(ctx.pkce_verifier().as_deref(), Some("ve"));
    assert_eq!(ctx.token().unwrap().access_token, "kept");
}

#[test]
fn login_builds_consent_url_with_pending_state() {
    let client = Oauth2Client::new(
        "client-id",
        "client-secret",
        "http://127.0.0.1:3000/callback".parse().unwrap(),
    );
    let mut ctx = Context::new();
    let r = login(&mut ctx, &client);
    let state = ctx.state().unwrap();
    let verifier = ctx.pkce_verifier().unwrap();
    assert!(!state.is_empty());
    assert!(!verifier.is_empty());
    assert!(r.location.starts_with("https://twitter.com/i/oauth2/authorize?"));
    assert!(r.location.contains(&format!("state={state}")));
    assert!(r.location.contains("code_challenge_method=S256"));
    assert!(r.location.contains("offline.access"));
    assert!(!r.location.contains(&verifier));
}

fn test_client() -> Oauth2Client {
    Oauth2Client::new("client-id", "client-secret", "http://127.0.0.1:3000/callback".parse().unwrap())
}

#[test]
fn login_url_binds_state_challenge_and_scopes() {
    let mut ctx = Context::new();
    let r = login(&mut ctx, &test_client());
    let state = ctx.state().unwrap();
    let verifier = ctx.pkce_verifier().unwrap();
    assert_eq!(state.len(), 22);
    assert_eq!(verifier.len(), 43);
    let challenge = PkceCodeChallenge::from_code_verifier_sha256(&PkceCodeVerifier::new(verifier.clone()));
    assert!(r.location.starts_with("https://twitter.com/i/oauth2/authorize?response_type=code&client_id=client-id"));
    let segment = format!(
        "&state={state}&code_challenge={}&code_challenge_method=S256&redirect_uri=",
        challenge.as_str()
    );
    assert!(r.location.contains(&segment));
    assert!(r.location.ends_with("&scope=tweet.read+tweet.write+users.read+offline.access"));
}

#[test]
fn second_login_overwrites_pending_pair() {
    let client = test_client();
    let mut ctx = Context::new();
    let first = login(&mut ctx, &client);
    let (s1, v1) = (ctx.state().unwrap(), ctx.pkce_verifier().unwrap());
    let second = login(&mut ctx, &client);
    let (s2, v2) = (ctx.state().unwrap(), ctx.pkce_verifier().unwrap());
    assert_ne!(s1, s2);
    assert_ne!(v1, v2);
    assert!(first.location.contains(&format!("&state={s1}&")));
    assert!(second.location.contains(&format!("&state={s2}&")));
    assert_eq!(callback(&mut ctx, &params("c", &s1)).err(), Some(CallbackError::StateMismatch));
    assert_eq!(callback(&mut ctx, &params("c", &s2)).ok().unwrap().verifier, v2);
}

#[test]
fn requested_scopes_are_read_write_users_offline() {
    assert_eq!(
        requested_scopes(),
        vec![
            Permission::TweetRead,
            Permission::TweetWrite,
            Permission::UsersRead,
            Permission::OfflineAccess
        ]
    );
}

#[test]
fn callback_without_pending_login_is_server_error() {
    let mut ctx = Context::new();
    let e = callback(&mut ctx, &params("code", "st")).err().unwrap();
    assert_eq!(e, CallbackError::NoPendingAuth);
    assert_eq!(e.status(), 500);
}

#[test]
fn callback_with_forged_state_is_rejected_and_keeps_pending() {
    let mut ctx = pending("good", "ver");
    ctx.set_token(&token("old", None, 9));
    let e = callback(&mut ctx, &params("code", "evil")).err().unwrap();
    assert_eq!(e, CallbackError::StateMismatch);
    assert_eq!(e.status(), 400);
    assert_eq!(ctx.state().as_deref(), Some("good"));
    assert_eq!(ctx.pkce_verifier().as_deref(), Some("ver"));
    assert_eq!(ctx.token().unwrap().access_token, "old");
}

#[test]
fn callback_with_matching_state_yields_exchange_and_consumes_pending() {
    let mut ctx = pending("good", "ver");
    let x = callback(&mut ctx, &params("the-code", "good")).ok().unwrap();
    assert_eq!(x.code, "the-code");
    assert_eq!(x.verifier, "ver");
    assert!(ctx.state().is_none());
    assert!(ctx.pkce_verifier().is_none());
}

#[test]
fn callback_with_state_but_no_verifier_fails() {
    let mut ctx = Context::new();
    ctx.set_state(&"good".to_string());
    assert_eq!(callback(&mut ctx, &params("c", "good")).err(), Some(CallbackError::NoPendingAuth));
    assert!(ctx.state().is_none());
}

#[test]
fn exchange_success_stores_token() {
    let mut ctx = pending("s", "v");
    let _ = callback(&mut ctx, &params("c", "s"));
    assert_eq!(complete_callback(&mut ctx, Some(token("new", Some("rt"), 1000))), Ok(()));
    assert_eq!(ctx.token().unwrap().access_token, "new");
    match check_token(&ctx, 0) {
        GuardStep::Use(t) => assert_eq!(t.access_token, "new"),
        _ => panic!("a fresh token is used as it is"),
    }
}

#[test]
fn exchange_failure_keeps_previous_token() {
    let mut ctx = Context::new();
    ctx.set_token(&token("prev", None, 7));
    let e = complete_callback(&mut ctx, None).err().unwrap();
    assert_eq!(e, CallbackError::ExchangeFailed);
    assert_eq!(e.status(), 500);
    assert_eq!(ctx.token().unwrap().access_token, "prev");
}

#[test]
fn second_login_replaces_first() {
    let mut ctx = pending("s1", "v1");
    start_login(&mut ctx, "u2".to_string(), &"s2".to_string(), &"v2".to_string());
    assert_eq!(callback(&mut ctx, &params("c", "s1")).err(), Some(CallbackError::StateMismatch));
    let x = callback(&mut ctx, &params("c", "s2")).ok().unwrap();
    assert_eq!(x.verifier, "v2");
}

#[test]
fn replayed_callback_is_refused_and_token_kept() {
    let mut ctx = pending("s", "v");
    let _ = callback(&mut ctx, &params("c", "s")).ok().unwrap();
    complete_callback(&mut ctx, Some(token("first", None, 100))).unwrap();
    assert_eq!(callback(&mut ctx, &params("c", "s")).err(), Some(CallbackError::NoPendingAuth));
    assert_eq!(ctx.token().unwrap().access_token, "first");
}

#[test]
fn guard_without_token_fails() {
    let ctx = Context::new();
    assert!(matches!(check_token(&ctx, 0), GuardStep::Fail(AuthError::NoToken)));
}

#[test]
fn guard_uses_token_outside_margin() {
    let mut ctx = Context::new();
    ctx.set_token(&token("a", Some("r"), 1061));
    assert!(matches!(check_token(&ctx, 1000), GuardStep::Use(_)));
    assert!(!token("a", None, 1061).is_expired(1000));
    assert!(token("a", None, 1060).is_expired(1000));
}

#[test]
fn guard_refreshes_token_within_margin() {
    let mut ctx = Context::new();
    ctx.set_token(&token("a", Some("r"), 1060));
    match check_token(&ctx, 1000) {
        GuardStep::Refresh(r) => assert_eq!(r, "r"),
        _ => panic!("a token within the margin is renewed"),
    }
}

#[test]
fn expired_token_is_refreshed_once_and_stored() {
    let mut ctx = Context::new();
    ctx.set_token(&token("old", Some("r1"), 10));
    let refresh = match check_token(&ctx, 500) {
        GuardStep::Refresh(r) => r,
        _ => panic!("an expired token is renewed"),
    };
    assert_eq!(refresh, "r1");
    let t = finish_refresh(&mut ctx, Some(token("renewed", Some("r2"), 5000))).unwrap();
    assert_eq!(t.access_token, "renewed");
    match check_token(&ctx, 500) {
        GuardStep::Use(u) => assert_eq!(u.access_token, "renewed"),
        _ => panic!("the renewed token is used without another renewal"),
    }
}

#[test]
fn expired_token_without_refresh_secret_fails() {
    let mut ctx = Context::new();
    ctx.set_token(&token("old", None, 10));
    assert!(matches!(check_token(&ctx, 500), GuardStep::Fail(AuthError::RefreshFailed)));
}

#[test]
fn failed_refresh_keeps_stale_token() {
    let mut ctx = Context::new();
    ctx.set_token(&token("stale", Some("r"), 10));
    assert_eq!(finish_refresh(&mut ctx, None).err(), Some(AuthError::RefreshFailed));
    assert_eq!(ctx.token().unwrap().access_token, "stale");
}

#[test]
fn expiry_check_handles_extreme_times() {
    assert!(token("a", None, i64::MIN).is_expired(i64::MIN));
    assert!(!token("a", None, i64::MAX).is_expired(i64::MAX - 61));
    assert!(token("a", None, i64::MAX).is_expired(i64::MAX));
}
