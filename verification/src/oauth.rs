//! Sign-in through an identity provider: the consent link, and the steps
//! that follow the provider's answer.

use crate::forms::RedirectQuery;
use crate::models::ErrorKind;
use crate::session::{Session, SessionView};
use oauth2::basic::BasicClient;
use oauth2::{AuthUrl, ClientId, CsrfToken, RedirectUrl, Scope};
use vstd::prelude::*;

verus! {

/// The consent link that the `oauth2` crate builds for a client with the
/// identifier `client_id`, the authorization endpoint `auth_url` and the
/// redirect address `redirect_url`, asking for `scopes` and carrying the
/// anti-forgery token `state`; none where one of the two addresses does not
/// parse.
pub uninterp spec fn authorization_url(
    client_id: Seq<char>,
    auth_url: Seq<char>,
    redirect_url: Seq<char>,
    scopes: Seq<Seq<char>>,
    state: Seq<char>,
) -> Option<Seq<char>>;

/// The texts of a list of strings.
pub open spec fn texts_of(strings: Seq<String>) -> Seq<Seq<char>> {
    strings.map_values(|s: String| s@)
}

/// A character of the URL-safe Base64 alphabet.
pub open spec fn is_url_safe_base64_char(c: char) -> bool {
    ||| 'a' <= c <= 'z'
    ||| 'A' <= c <= 'Z'
    ||| '0' <= c <= '9'
    ||| c == '-'
    ||| c == '_'
}

/// Calls `CsrfToken::new_random`: 16 random bytes, written as 22 characters
/// of unpadded URL-safe Base64.
#[verifier::external_body]
fn fresh_csrf_token() -> (token: String)
    ensures
        token@.len() == 22,
        forall|i: int| 0 <= i < token@.len() ==> is_url_safe_base64_char(#[trigger] token@[i]),
{
    CsrfToken::new_random().secret().clone()
}

/// Builds a `BasicClient` from the identifier and the two addresses, and
/// calls `authorize_url`, `add_scopes` and `url` on it, with `state` as the
/// anti-forgery token. `AuthUrl::new` and `RedirectUrl::new` refuse an
/// address that does not parse. The contract gives the result a name.
#[verifier::external_body]
fn build_authorization_url(
    client_id: &str,
    auth_url: &str,
    redirect_url: &str,
    scopes: &Vec<String>,
    state: &str,
) -> (url: Option<String>)
    ensures
        match url {
            Some(u) => authorization_url(
                client_id@,
                auth_url@,
                redirect_url@,
                texts_of(scopes@),
                state@,
            ) == Some(u@),
            None => authorization_url(
                client_id@,
                auth_url@,
                redirect_url@,
                texts_of(scopes@),
                state@,
            ) is None,
        },
{
    let auth = AuthUrl::new(auth_url.to_owned()).ok()?;
    let redirect = RedirectUrl::new(redirect_url.to_owned()).ok()?;
    let client = BasicClient::new(ClientId::new(client_id.to_owned()), None, auth, None)
        .set_redirect_uri(redirect);
    let token = CsrfToken::new(state.to_owned());
    let request = client.authorize_url(move || token)
        .add_scopes(scopes.iter().map(|s| Scope::new(s.clone())));
    Some(request.url().0.to_string())
}

/// What the service needs to know of the identity provider.
pub struct OAuthConfig {
    pub client_id: String,
    pub client_secret: String,
    pub auth_url: String,
    pub token_url: String,
    pub redirect_url: String,
    pub scopes: Vec<String>,
}

impl OAuthConfig {
    /// The settings for Google, for a client with the given identifier and
    /// secret: Google's two endpoints, the local callback address, and the
    /// scopes for the profile and the e-mail address.
    pub fn google(client_id: String, client_secret: String) -> (config: OAuthConfig)
        ensures
            config.client_id@ == client_id@,
            config.client_secret@ == client_secret@,
            config.auth_url@ == "https://accounts.google.com/o/oauth2/v2/auth"@,
            config.token_url@ == "https://www.googleapis.com/oauth2/v3/token"@,
            config.redirect_url@ == "http://localhost:8899/g/callback"@,
            texts_of(config.scopes@) == seq![
                "https://www.googleapis.com/auth/userinfo.profile"@,
                "https://www.googleapis.com/auth/userinfo.email"@,
            ],
    {
        let mut scopes: Vec<String> = Vec::new();
        scopes.push("https://www.googleapis.com/auth/userinfo.profile".to_owned());
        scopes.push("https://www.googleapis.com/auth/userinfo.email".to_owned());
        assert(texts_of(scopes@) =~= seq![
            "https://www.googleapis.com/auth/userinfo.profile"@,
            "https://www.googleapis.com/auth/userinfo.email"@,
        ]);
        OAuthConfig {
            client_id,
            client_secret,
            auth_url: "https://accounts.google.com/o/oauth2/v2/auth".to_owned(),
            token_url: "https://www.googleapis.com/oauth2/v3/token".to_owned(),
            redirect_url: "http://localhost:8899/g/callback".to_owned(),
            scopes,
        }
    }

    /// The consent link of this configuration for the token `state`.
    pub open spec fn consent_link(&self, state: Seq<char>) -> Option<Seq<char>> {
        authorization_url(
            self.client_id@,
            self.auth_url@,
            self.redirect_url@,
            texts_of(self.scopes@),
            state,
        )
    }
}

/// The consent link for the anti-forgery token `state`.
pub fn oauth_url_with(config: &OAuthConfig, state: &str) -> (url: Option<String>)
    ensures
        match config.consent_link(state@) {
            Some(link) => url matches Some(u) && u@ == link,
            None => url is None,
        },
{
    build_authorization_url(
        config.client_id.as_str(),
        config.auth_url.as_str(),
        config.redirect_url.as_str(),
        &config.scopes,
        state,
    )
}

/// Makes a consent link with a fresh random anti-forgery token and keeps it
/// in the session for the answer to be held against. It fails only where no
/// link can be made for the token drawn; the session then stays as it was.
pub fn oauth_url(config: &OAuthConfig, session: &mut Session) -> (url: Option<String>)
    ensures
        match url {
            Some(u) => exists|token: Seq<char>|
                {
                    &&& is_fresh_token(token)
                    &&& #[trigger] config.consent_link(token) == Some(u@)
                    &&& final(session)@ == (SessionView {
                        csrf_token: Some(token),
                        ..old(session)@
                    })
                },
            None => {
                &&& final(session)@ == old(session)@
                &&& exists|token: Seq<char>|
                    is_fresh_token(token) && #[trigger] config.consent_link(token) is None
            },
        },
{
    let token = fresh_csrf_token();
    match oauth_url_with(config, token.as_str()) {
        Some(u) => {
            proof {
                assert(config.consent_link(token@) == Some(u@));
            }
            session.stash_csrf_token(token);
            Some(u)
        },
        None => {
            proof {
                assert(config.consent_link(token@) is None);
            }
            None
        },
    }
}

/// An anti-forgery token as `oauth_url` draws it: 22 characters of URL-safe
/// Base64.
pub open spec fn is_fresh_token(token: Seq<char>) -> bool {
    &&& token.len() == 22
    &&& forall|i: int| 0 <= i < token.len() ==> is_url_safe_base64_char(#[trigger] token[i])
}

/// What the identity provider tells of a user.
#[derive(Debug)]
pub struct ProviderProfile {
    pub sub: u64,
    pub name: String,
    pub picture: Option<String>,
    pub email: String,
}

/// Where a sign-in through the identity provider stands.
pub enum OAuthState {
    /// No consent link has been made.
    Unstarted,
    /// A consent link with this anti-forgery token has been made.
    AuthorizationRequested(String),
    /// The provider's answer carried the token; its code is being exchanged
    /// for an access token.
    CodeReceived,
    /// The access token is here; the profile is being fetched.
    TokenExchanged,
    /// The profile is here.
    ProfileFetched,
    /// The sign-in was given up.
    Failed,
}

/// What has happened in a sign-in through the identity provider.
pub enum OAuthEvent {
    /// The provider sent the client back with a code and a token.
    Callback(RedirectQuery),
    /// The exchange gave an access token, or failed.
    TokenReceived(Option<String>),
    /// The provider gave the profile, or refused.
    ProfileReceived(Option<ProviderProfile>),
}

/// What to do next in a sign-in through the identity provider.
pub enum OAuthAction {
    /// Exchange this code for an access token.
    ExchangeCode(String),
    /// Fetch the profile from `url`, with `authorization` as the header of
    /// that name.
    FetchProfile { url: String, authorization: String },
    /// The sign-in is over: here is the profile, or why there is none.
    Finish(Result<ProviderProfile, ErrorKind>),
}

/// The state that a session stands for: an authorization has been requested
/// where it holds a token.
pub fn state_of(session: &Session) -> (state: OAuthState)
    ensures
        match session@.csrf_token {
            Some(token) => state matches OAuthState::AuthorizationRequested(t) && t@ == token,
            None => state is Unstarted,
        },
{
    match &session.csrf_token {
        Some(token) => OAuthState::AuthorizationRequested(token.clone()),
        None => OAuthState::Unstarted,
    }
}

/// The header that carries an access token.
pub fn bearer_header(token: &str) -> (header: String)
    ensures
        header@ == "Bearer "@ + token@,
{
    let mut header = "Bearer ".to_owned();
    header.append(token);
    header
}

/// The action that gives the sign-in up.
pub open spec fn gives_up(next: OAuthState, action: OAuthAction) -> bool {
    next is Failed && action == OAuthAction::Finish(Err(ErrorKind::OAuth))
}

/// The step of a sign-in through the identity provider.
pub open spec fn oauth_step(
    state: OAuthState,
    event: OAuthEvent,
    before: SessionView,
    next: OAuthState,
    action: OAuthAction,
    after: SessionView,
) -> bool {
    match (state, event) {
        (OAuthState::AuthorizationRequested(token), OAuthEvent::Callback(query)) => if query.state@
            == token@ {
            &&& next is CodeReceived
            &&& action matches OAuthAction::ExchangeCode(code) && code@ == query.code@
            &&& after == (SessionView { csrf_token: None, ..before })
        } else {
            gives_up(next, action) && after == before
        },
        (OAuthState::CodeReceived, OAuthEvent::TokenReceived(Some(token))) => {
            &&& next is TokenExchanged
            &&& action matches OAuthAction::FetchProfile { url, authorization } && url@
                == "https://www.googleapis.com/oauth2/v3/userinfo"@ && authorization@ == "Bearer "@
                + token@
            &&& after == before
        },
        (OAuthState::TokenExchanged, OAuthEvent::ProfileReceived(Some(profile))) => {
            &&& next is ProfileFetched
            &&& action == OAuthAction::Finish(Ok(profile))
            &&& after == before
        },
        _ => gives_up(next, action) && after == before,
    }
}

/// Takes a sign-in through the identity provider one step further. The
/// provider's answer is taken only where it carries the token that the
/// session holds, and that token is then spent. A failed exchange, a refused
/// profile and an event that does not belong to the state give the sign-in
/// up.
pub fn google_oauth_callback(state: OAuthState, event: OAuthEvent, session: &mut Session) -> (r: (
    OAuthState,
    OAuthAction,
))
    ensures
        oauth_step(state, event, old(session)@, r.0, r.1, final(session)@),
{
    match state {
        OAuthState::AuthorizationRequested(token) => match event {
            OAuthEvent::Callback(query) => {
                if query.state == token {
                    session.clear_csrf_token();
                    (OAuthState::CodeReceived, OAuthAction::ExchangeCode(query.code))
                } else {
                    (OAuthState::Failed, OAuthAction::Finish(Err(ErrorKind::OAuth)))
                }
            },
            _ => (OAuthState::Failed, OAuthAction::Finish(Err(ErrorKind::OAuth))),
        },
        OAuthState::CodeReceived => match event {
            OAuthEvent::TokenReceived(Some(token)) => (
                OAuthState::TokenExchanged,
                OAuthAction::FetchProfile {
                    url: "https://www.googleapis.com/oauth2/v3/userinfo".to_owned(),
                    authorization: bearer_header(token.as_str()),
                },
            ),
            _ => (OAuthState::Failed, OAuthAction::Finish(Err(ErrorKind::OAuth))),
        },
        OAuthState::TokenExchanged => match event {
            OAuthEvent::ProfileReceived(Some(profile)) => (
                OAuthState::ProfileFetched,
                OAuthAction::Finish(Ok(profile)),
            ),
            _ => (OAuthState::Failed, OAuthAction::Finish(Err(ErrorKind::OAuth))),
        },
        _ => (OAuthState::Failed, OAuthAction::Finish(Err(ErrorKind::OAuth))),
    }
}

/// How many steps a sign-in through the identity provider has left at most.
pub open spec fn oauth_steps_left(state: OAuthState) -> nat {
    match state {
        OAuthState::Unstarted => 1,
        OAuthState::AuthorizationRequested(_) => 3,
        OAuthState::CodeReceived => 2,
        OAuthState::TokenExchanged => 1,
        OAuthState::ProfileFetched => 0,
        OAuthState::Failed => 0,
    }
}

/// Every step either finishes the sign-in or comes closer to its end, and a
/// step finishes exactly when it reaches `ProfileFetched` or `Failed`. No
/// step changes who is signed in.
pub proof fn lemma_oauth_ends(
    state: OAuthState,
    event: OAuthEvent,
    before: SessionView,
    next: OAuthState,
    action: OAuthAction,
    after: SessionView,
)
    requires
        oauth_step(state, event, before, next, action, after),
    ensures
        action is Finish <==> next is ProfileFetched || next is Failed,
        !(state is ProfileFetched || state is Failed) ==> oauth_steps_left(next)
            < oauth_steps_left(state),
        next is ProfileFetched ==> action matches OAuthAction::Finish(Ok(_)),
        next is Failed ==> action == OAuthAction::Finish(Err(ErrorKind::OAuth)),
        after.user == before.user,
        after.flashes == before.flashes,
{
}

/// A code is exchanged only for an answer that carries the token of the
/// authorization that was requested; a session without a token takes no
/// answer at all.
pub proof fn lemma_code_needs_token(
    state: OAuthState,
    event: OAuthEvent,
    before: SessionView,
    next: OAuthState,
    action: OAuthAction,
    after: SessionView,
)
    requires
        oauth_step(state, event, before, next, action, after),
    ensures
        action is ExchangeCode ==> state is AuthorizationRequested && event is Callback
            && event->Callback_0.state@ == state->AuthorizationRequested_0@,
        action is ExchangeCode ==> after.csrf_token is None,
        state is Unstarted ==> gives_up(next, action),
{
}

} // verus!
