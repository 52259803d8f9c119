use rust_auth::forms::{RedirectQuery, SignInData, SignUpData};
use rust_auth::middlewares::{auth_middleware, Method};
use rust_auth::models::{ErrorKind, NewUser, User};
use rust_auth::oauth::{
    bearer_header, google_oauth_callback, oauth_url, oauth_url_with, state_of, OAuthAction,
    OAuthConfig, OAuthEvent, OAuthState, ProviderProfile,
};
use rust_auth::password::verify;
use rust_auth::session::{FlashMessage, Level, Session};
use rust_auth::user_handler::{
    flash_errors, signin, signout, signup, Reply, SignInAction, SignInEvent, SignInState,
    SignUpAction, SignUpEvent, SignUpState,
};

fn alice_form() -> SignUpData {
    SignUpData {
        username: "alice1".to_string(),
        email: "a@example.com".to_string(),
        password: "Abcdef12".to_string(),
        password2: "Abcdef12".to_string(),
    }
}

fn stored(row: &NewUser) -> User {
    User {
        id: row.id,
        username: row.username.clone(),
        email: row.email.clone(),
        password: row.password.duplicate(),
        created_at: 0,
        updated_at: None,
        last_login: None,
    }
}

fn flash_texts(flashes: &[FlashMessage]) -> Vec<(Level, String)> {
    flashes.iter().map(|f| (f.level, f.message.clone())).collect()
}

fn assert_redirect(reply: &Reply, error: Option<ErrorKind>, location: &str) {
    match reply {
        Reply::Redirect { error: e, location: l } => {
            assert_eq!(*e, error);
            assert_eq!(l, location);
        }
        Reply::ServerError => panic!("unexpected server error"),
    }
}

/// Runs a sign-up against a store that holds the given usernames and e-mail
/// addresses, and gives the row that was written, if any, with the reply.
fn run_signup(
    form: SignUpData,
    usernames: &[&str],
    emails: &[&str],
    session: &mut Session,
) -> (Option<NewUser>, Reply) {
    let mut written = None;
    let mut state = SignUpState::Start;
    let mut event = SignUpEvent::Submitted(form);
    for _ in 0..8 {
        let (next, action) = signup(state, event, session);
        state = next;
        event = match action {
            SignUpAction::ProbeUsername(name) => {
                SignUpEvent::UsernameProbed(usernames.contains(&name.as_str()))
            }
            SignUpAction::ProbeEmail(email) => {
                SignUpEvent::EmailProbed(emails.contains(&email.as_str()))
            }
            SignUpAction::Create(row) => {
                written = Some(row);
                SignUpEvent::Created(Ok(()))
            }
            SignUpAction::Answer(reply) => {
                assert!(matches!(state, SignUpState::Done));
                return (written, reply);
            }
        };
    }
    panic!("the sign-up did not end");
}

fn run_signin(form: SignInData, users: &[User], session: &mut Session) -> Reply {
    let (state, action) = signin(SignInState::Start, SignInEvent::Submitted(form), session);
    let name = match action {
        SignInAction::LookUp(name) => name,
        SignInAction::Answer(reply) => return reply,
    };
    let found = users.iter().find(|u| u.username == name).map(|u| User {
        id: u.id,
        username: u.username.clone(),
        email: u.email.clone(),
        password: u.password.duplicate(),
        created_at: u.created_at,
        updated_at: u.updated_at,
        last_login: u.last_login,
    });
    let (state, action) = signin(state, SignInEvent::LookedUp(found), session);
    assert!(matches!(state, SignInState::Done));
    match action {
        SignInAction::Answer(reply) => reply,
        SignInAction::LookUp(_) => panic!("the sign-in asked twice"),
    }
}

#[test]
fn signup_creates_a_row_with_a_hash() {
    let mut session = Session::new();
    let (written, reply) = run_signup(alice_form(), &[], &[], &mut session);
    assert_redirect(&reply, None, "/users");
    let row = written.unwrap();
    assert_eq!(row.username, "alice1");
    assert_eq!(row.email, "a@example.com");
    assert_ne!(row.password.expose(), "Abcdef12");
    assert!(verify("Abcdef12", &row.password));
    assert!(session.flashes.is_empty());
    assert_eq!(session.is_authenticated(), None);
}

#[test]
fn signup_with_taken_username_conflicts() {
    let mut session = Session::new();
    let (written, reply) = run_signup(alice_form(), &["alice1"], &[], &mut session);
    assert!(written.is_none());
    assert_redirect(&reply, Some(ErrorKind::Conflict), "/signup");
    assert_eq!(
        flash_texts(&session.flashes),
        vec![(Level::Error, "Username is already taken".to_string())]
    );
}

#[test]
fn signup_with_taken_email_conflicts() {
    let mut session = Session::new();
    let (written, reply) = run_signup(alice_form(), &["bob"], &["a@example.com"], &mut session);
    assert!(written.is_none());
    assert_redirect(&reply, Some(ErrorKind::Conflict), "/signup");
    assert_eq!(
        flash_texts(&session.flashes),
        vec![(Level::Error, "Email is already taken".to_string())]
    );
}

#[test]
fn signup_refused_by_the_store_conflicts() {
    let mut session = Session::new();
    let (state, action) =
        signup(SignUpState::Creating, SignUpEvent::Created(Err(ErrorKind::Conflict)), &mut session);
    assert!(matches!(state, SignUpState::Done));
    match action {
        SignUpAction::Answer(reply) => assert_redirect(&reply, Some(ErrorKind::Conflict), "/signup"),
        _ => panic!("unexpected action"),
    }
    assert_eq!(
        flash_texts(&session.flashes),
        vec![(Level::Error, "Username or email is already taken".to_string())]
    );
}

#[test]
fn signup_store_failure_is_a_server_error() {
    let mut session = Session::new();
    let (state, action) =
        signup(SignUpState::Creating, SignUpEvent::Created(Err(ErrorKind::Store)), &mut session);
    assert!(matches!(state, SignUpState::Done));
    assert!(matches!(action, SignUpAction::Answer(Reply::ServerError)));
    assert!(session.flashes.is_empty());
}

#[test]
fn signup_out_of_order_is_a_server_error() {
    let mut session = Session::new();
    let (state, action) = signup(SignUpState::Start, SignUpEvent::EmailProbed(false), &mut session);
    assert!(matches!(state, SignUpState::Done));
    assert!(matches!(action, SignUpAction::Answer(Reply::ServerError)));
    let (state, action) = signup(SignUpState::Done, SignUpEvent::Submitted(alice_form()), &mut session);
    assert!(matches!(state, SignUpState::Done));
    assert!(matches!(action, SignUpAction::Answer(Reply::ServerError)));
}

#[test]
fn signup_with_invalid_form_flashes_each_message() {
    let mut session = Session::new();
    let form = SignUpData {
        username: "alice1".to_string(),
        email: "nope".to_string(),
        password: "abc".to_string(),
        password2: "abc".to_string(),
    };
    let (written, reply) = run_signup(form, &[], &[], &mut session);
    assert!(written.is_none());
    assert_redirect(&reply, Some(ErrorKind::Validation), "/signup");
    let mut flashes = flash_texts(&session.flashes);
    flashes.sort_by(|a, b| a.1.cmp(&b.1));
    assert_eq!(flashes.len(), 2);
    assert_eq!(flashes[0], (Level::Error, "invalid email".to_string()));
    assert_eq!(flashes[1].0, Level::Error);
    assert!(flashes[1].1.starts_with("password must be 4-50 characters long"));
}

#[test]
fn signin_after_signup_authenticates() {
    let mut session = Session::new();
    let (written, _) = run_signup(alice_form(), &[], &[], &mut session);
    let user = stored(&written.unwrap());
    let id = user.id;
    let form = SignInData { username: "alice1".to_string(), password: "Abcdef12".to_string() };
    let reply = run_signin(form, &[user], &mut session);
    assert_redirect(&reply, None, "/");
    assert_eq!(session.is_authenticated(), Some(id));
    assert_eq!(
        flash_texts(&session.flashes),
        vec![(Level::Success, "Welcome to our website".to_string())]
    );
}

#[test]
fn signin_failures_look_alike() {
    let mut first = Session::new();
    let (written, _) = run_signup(alice_form(), &[], &[], &mut first);
    let user = stored(&written.unwrap());

    let mut wrong_session = Session::new();
    let wrong = run_signin(
        SignInData { username: "alice1".to_string(), password: "Abcdef13".to_string() },
        &[stored_copy(&user)],
        &mut wrong_session,
    );
    let mut unknown_session = Session::new();
    let unknown = run_signin(
        SignInData { username: "nobody".to_string(), password: "Abcdef13".to_string() },
        &[stored_copy(&user)],
        &mut unknown_session,
    );
    assert_redirect(&wrong, Some(ErrorKind::Auth), "/signin");
    assert_redirect(&unknown, Some(ErrorKind::Auth), "/signin");
    assert_eq!(flash_texts(&wrong_session.flashes), flash_texts(&unknown_session.flashes));
    assert_eq!(
        flash_texts(&wrong_session.flashes),
        vec![(Level::Error, "invalid credentials".to_string())]
    );
    assert_eq!(wrong_session.is_authenticated(), None);
    assert_eq!(unknown_session.is_authenticated(), None);
}

fn stored_copy(u: &User) -> User {
    User {
        id: u.id,
        username: u.username.clone(),
        email: u.email.clone(),
        password: u.password.duplicate(),
        created_at: u.created_at,
        updated_at: u.updated_at,
        last_login: u.last_login,
    }
}

#[test]
fn signin_with_invalid_form_asks_nothing() {
    let mut session = Session::new();
    let reply = run_signin(
        SignInData { username: "al".to_string(), password: "Abcdef12".to_string() },
        &[],
        &mut session,
    );
    assert_redirect(&reply, Some(ErrorKind::Validation), "/signin");
    assert_eq!(
        flash_texts(&session.flashes),
        vec![(Level::Error, "Username must be alphanumeric and/or dashes only".to_string())]
    );
}

#[test]
fn signin_out_of_order_is_a_server_error() {
    let mut session = Session::new();
    let (state, action) = signin(SignInState::Start, SignInEvent::LookedUp(None), &mut session);
    assert!(matches!(state, SignInState::Done));
    assert!(matches!(action, SignInAction::Answer(Reply::ServerError)));
}

#[test]
fn signout_clears_the_session() {
    let mut session = Session::new();
    session.set_authenticated(9);
    assert_eq!(session.is_authenticated(), Some(9));
    let reply = signout(&mut session);
    assert_redirect(&reply, None, "/signin");
    assert_eq!(session.is_authenticated(), None);
    let reply = signout(&mut session);
    assert_redirect(&reply, None, "/signin");
    assert_eq!(session.is_authenticated(), None);
}

#[test]
fn flashes_are_taken_once() {
    let mut session = Session::new();
    session.push_flash(Level::Success, "one".to_string());
    session.push_flash(Level::Error, "two".to_string());
    let taken = session.take_flashes();
    assert_eq!(
        flash_texts(&taken),
        vec![(Level::Success, "one".to_string()), (Level::Error, "two".to_string())]
    );
    assert!(session.take_flashes().is_empty());
}

#[test]
fn flash_errors_adds_one_flash_per_field() {
    let mut session = Session::new();
    session.push_flash(Level::Success, "kept".to_string());
    let mut messages = rust_auth::error_map::ErrorMap::new();
    messages.insert("a".to_string(), "one".to_string());
    messages.insert("b".to_string(), "two".to_string());
    messages.insert("a".to_string(), "three".to_string());
    flash_errors(&mut session, &messages);
    assert_eq!(
        flash_texts(&session.flashes),
        vec![
            (Level::Success, "kept".to_string()),
            (Level::Error, "three".to_string()),
            (Level::Error, "two".to_string()),
        ]
    );
}

#[test]
fn guard_lets_signed_in_users_pass() {
    let mut session = Session::new();
    session.set_authenticated(1);
    assert!(auth_middleware(&session, Method::Get, "/users").is_none());
    assert!(auth_middleware(&session, Method::Other, "/users/1").is_none());
}

#[test]
fn guard_sends_strangers_to_signin() {
    let session = Session::new();
    for (method, path) in [
        (Method::Get, "/"),
        (Method::Get, "/users"),
        (Method::Post, "/signout"),
        (Method::Other, "/signin"),
        (Method::Other, "/signup"),
        (Method::Get, "/signin/"),
        (Method::Get, "/g/callback"),
    ] {
        match auth_middleware(&session, method, path) {
            Some(reply) => assert_redirect(&reply, None, "/signin"),
            None => panic!("{:?} {} was let through", method, path),
        }
    }
}

#[test]
fn guard_exempts_the_forms() {
    let session = Session::new();
    assert!(auth_middleware(&session, Method::Get, "/signin").is_none());
    assert!(auth_middleware(&session, Method::Post, "/signin").is_none());
    assert!(auth_middleware(&session, Method::Get, "/signup").is_none());
    assert!(auth_middleware(&session, Method::Post, "/signup").is_none());
}

fn google() -> OAuthConfig {
    OAuthConfig::google("client-1".to_string(), "secret-1".to_string())
}

fn query_value(url: &str, key: &str) -> Option<String> {
    let query = url.split('?').nth(1)?;
    query
        .split('&')
        .filter_map(|pair| pair.split_once('='))
        .find(|(k, _)| *k == key)
        .map(|(_, v)| v.to_string())
}

#[test]
fn google_settings() {
    let config = google();
    assert_eq!(config.client_id, "client-1");
    assert_eq!(config.client_secret, "secret-1");
    assert_eq!(config.auth_url, "https://accounts.google.com/o/oauth2/v2/auth");
    assert_eq!(config.token_url, "https://www.googleapis.com/oauth2/v3/token");
    assert_eq!(config.redirect_url, "http://localhost:8899/g/callback");
    assert_eq!(
        config.scopes,
        vec![
            "https://www.googleapis.com/auth/userinfo.profile".to_string(),
            "https://www.googleapis.com/auth/userinfo.email".to_string(),
        ]
    );
}

#[test]
fn consent_link_carries_the_token() {
    let url = oauth_url_with(&google(), "token-123").unwrap();
    assert!(url.starts_with("https://accounts.google.com/o/oauth2/v2/auth?"));
    assert_eq!(query_value(&url, "response_type").as_deref(), Some("code"));
    assert_eq!(query_value(&url, "client_id").as_deref(), Some("client-1"));
    assert_eq!(query_value(&url, "state").as_deref(), Some("token-123"));
    assert_eq!(
        query_value(&url, "redirect_uri").as_deref(),
        Some("http%3A%2F%2Flocalhost%3A8899%2Fg%2Fcallback")
    );
    assert_eq!(
        query_value(&url, "scope").as_deref(),
        Some("https%3A%2F%2Fwww.googleapis.com%2Fauth%2Fuserinfo.profile+https%3A%2F%2Fwww.googleapis.com%2Fauth%2Fuserinfo.email")
    );
    assert_ne!(url, "token-123");
}

#[test]
fn consent_link_needs_addresses_that_parse() {
    let mut config = google();
    config.auth_url = "not an address".to_string();
    assert!(oauth_url_with(&config, "token-123").is_none());
    let mut session = Session::new();
    assert!(oauth_url(&config, &mut session).is_none());
    assert!(session.csrf_token.is_none());
}

#[test]
fn consent_link_stashes_a_fresh_token() {
    let mut session = Session::new();
    let url = oauth_url(&google(), &mut session).unwrap();
    let token = session.csrf_token.clone().unwrap();
    assert_eq!(token.len(), 22);
    assert!(token.chars().all(|c| c.is_ascii_alphanumeric() || c == '-' || c == '_'));
    assert_eq!(query_value(&url, "state"), Some(token.clone()));
    let mut other = Session::new();
    oauth_url(&google(), &mut other).unwrap();
    assert_ne!(other.csrf_token, Some(token));
}

#[test]
fn callback_runs_to_the_profile() {
    let mut session = Session::new();
    session.stash_csrf_token("token-123".to_string());
    let state = state_of(&session);
    assert!(matches!(&state, OAuthState::AuthorizationRequested(t) if t == "token-123"));
    let query = RedirectQuery { code: "code-9".to_string(), state: "token-123".to_string() };
    let (state, action) = google_oauth_callback(state, OAuthEvent::Callback(query), &mut session);
    assert!(matches!(state, OAuthState::CodeReceived));
    assert!(matches!(&action, OAuthAction::ExchangeCode(code) if code == "code-9"));
    assert!(session.csrf_token.is_none());

    let (state, action) = google_oauth_callback(
        state,
        OAuthEvent::TokenReceived(Some("access-1".to_string())),
        &mut session,
    );
    assert!(matches!(state, OAuthState::TokenExchanged));
    match action {
        OAuthAction::FetchProfile { url, authorization } => {
            assert_eq!(url, "https://www.googleapis.com/oauth2/v3/userinfo");
            assert_eq!(authorization, "Bearer access-1");
        }
        _ => panic!("unexpected action"),
    }

    let profile = ProviderProfile {
        sub: 12,
        name: "Alice".to_string(),
        picture: None,
        email: "a@example.com".to_string(),
    };
    let (state, action) =
        google_oauth_callback(state, OAuthEvent::ProfileReceived(Some(profile)), &mut session);
    assert!(matches!(state, OAuthState::ProfileFetched));
    match action {
        OAuthAction::Finish(Ok(p)) => {
            assert_eq!(p.sub, 12);
            assert_eq!(p.name, "Alice");
            assert_eq!(p.picture, None);
            assert_eq!(p.email, "a@example.com");
        }
        _ => panic!("unexpected action"),
    }
}

#[test]
fn callback_with_another_token_is_refused() {
    let mut session = Session::new();
    session.stash_csrf_token("token-123".to_string());
    let query = RedirectQuery { code: "code-9".to_string(), state: "token-124".to_string() };
    let (state, action) =
        google_oauth_callback(state_of(&session), OAuthEvent::Callback(query), &mut session);
    assert!(matches!(state, OAuthState::Failed));
    assert!(matches!(action, OAuthAction::Finish(Err(ErrorKind::OAuth))));
    assert_eq!(session.csrf_token.as_deref(), Some("token-123"));
}

#[test]
fn callback_without_a_pending_authorization_is_refused() {
    let mut session = Session::new();
    assert!(matches!(state_of(&session), OAuthState::Unstarted));
    let query = RedirectQuery { code: "code-9".to_string(), state: "".to_string() };
    let (state, action) =
        google_oauth_callback(OAuthState::Unstarted, OAuthEvent::Callback(query), &mut session);
    assert!(matches!(state, OAuthState::Failed));
    assert!(matches!(action, OAuthAction::Finish(Err(ErrorKind::OAuth))));
}

#[test]
fn callback_gives_up_on_failed_exchange_or_profile() {
    let mut session = Session::new();
    let (state, action) =
        google_oauth_callback(OAuthState::CodeReceived, OAuthEvent::TokenReceived(None), &mut session);
    assert!(matches!(state, OAuthState::Failed));
    assert!(matches!(action, OAuthAction::Finish(Err(ErrorKind::OAuth))));
    let (state, action) = google_oauth_callback(
        OAuthState::TokenExchanged,
        OAuthEvent::ProfileReceived(None),
        &mut session,
    );
    assert!(matches!(state, OAuthState::Failed));
    assert!(matches!(action, OAuthAction::Finish(Err(ErrorKind::OAuth))));
    let (state, action) = google_oauth_callback(
        OAuthState::ProfileFetched,
        OAuthEvent::TokenReceived(Some("t".to_string())),
        &mut session,
    );
    assert!(matches!(state, OAuthState::Failed));
    assert!(matches!(action, OAuthAction::Finish(Err(ErrorKind::OAuth))));
}

#[test]
fn bearer_header_prefixes_the_token() {
    assert_eq!(bearer_header("abc"), "Bearer abc");
    assert_eq!(bearer_header(""), "Bearer ");
}
