//! The OAuth login flow with the provider. The application performs each
//! outbound call and each write; this module decides, step by step, what
//! comes next. The provider's access token lives only between the token
//! exchange and the profile request and has no textual form that a log
//! could print.
use crate::decimal::format_i64;
use crate::auth::session_token;
use crate::identity::{GhUserRecord, IdentityView};
use crate::error_handlers::HandlerError;
use crate::models::ModelError;
use vstd::prelude::*;

verus! {

/// The provider's token endpoint.
pub const TOKEN_URL: &'static str = "https://github.com/login/oauth/access_token";

/// The provider's profile endpoint.
pub const PROFILE_URL: &'static str = "https://api.github.com/user";

/// The user agent the provider's API asks callers to send.
pub const USER_AGENT: &'static str = "Rust/reqwest/uDevGames.com";

/// The two values the provider issued this site, loaded once at startup.
pub struct GhCredentials {
    /// The public client id.
    pub client_id: String,
    /// The secret shared only with the provider.
    pub client_secret: String,
}

/// The form body of the token request.
pub open spec fn token_form(client_id: Seq<char>, client_secret: Seq<char>, code: Seq<char>) -> Seq<
    (Seq<char>, Seq<char>),
> {
    seq![("client_id"@, client_id), ("client_secret"@, client_secret), ("code"@, code)]
}

pub open spec fn pairs_view(v: Seq<(String, String)>) -> Seq<(Seq<char>, Seq<char>)> {
    v.map_values(|p: (String, String)| (p.0@, p.1@))
}

impl GhCredentials {
    /// Where a login starts: the provider's authorization page, told only
    /// the public client id and asking for no scopes.
    pub fn authorize_url(&self) -> (r: String)
        ensures
            r@ == "http://github.com/login/oauth/authorize?client_id="@ + self.client_id@,
    {
        let mut r = String::from_str("http://github.com/login/oauth/authorize?client_id=");
        r.append(self.client_id.as_str());
        r
    }

    /// The form that exchanges an authorization code for an access token.
    pub fn token_request_form(&self, code: &str) -> (r: Vec<(String, String)>)
        ensures
            pairs_view(r@) == token_form(self.client_id@, self.client_secret@, code@),
    {
        let mut r: Vec<(String, String)> = Vec::new();
        r.push((String::from_str("client_id"), self.client_id.clone()));
        r.push((String::from_str("client_secret"), self.client_secret.clone()));
        r.push((String::from_str("code"), String::from_str(code)));
        assert(pairs_view(r@) =~= token_form(self.client_id@, self.client_secret@, code@));
        r
    }
}

/// The provider's access token. It is kept out of every textual form.
pub struct AccessToken {
    token: String,
}

impl View for AccessToken {
    type V = Seq<char>;

    closed spec fn view(&self) -> Seq<char> {
        self.token@
    }
}

impl AccessToken {
    pub fn new(token: String) -> (r: AccessToken)
        ensures
            r@ == token@,
    {
        AccessToken { token }
    }

    /// The header value that presents the token to the profile endpoint.
    pub fn authorization_header(&self) -> (r: String)
        ensures
            r@ == "token "@ + self@,
    {
        let mut r = String::from_str("token ");
        r.append(self.token.as_str());
        r
    }
}

/// The token endpoint's answer.
pub struct AuthorizationResponse {
    pub access_token: AccessToken,
    pub token_type: String,
    pub scope: String,
}

impl AuthorizationResponse {
    /// A description for logs, with the access token left out.
    pub fn describe(&self) -> (r: String)
        ensures
            r@ == "AuthorizationResponse { access_token: REDACTED, token_type: "@
                + self.token_type@ + ", scope: "@ + self.scope@ + " }"@,
    {
        let mut r = String::from_str("AuthorizationResponse { access_token: REDACTED, token_type: ");
        r.append(self.token_type.as_str());
        r.append(", scope: ");
        r.append(self.scope.as_str());
        r.append(" }");
        r
    }
}

/// The profile endpoint's answer: the fields the identity cache keeps.
pub struct UserResponse {
    pub id: i64,
    pub login: String,
    pub avatar_url: String,
    pub html_url: String,
}

impl View for UserResponse {
    type V = IdentityView;

    open spec fn view(&self) -> IdentityView {
        IdentityView {
            id: self.id,
            login: self.login@,
            avatar_url: self.avatar_url@,
            html_url: self.html_url@,
        }
    }
}

/// How an outbound call to the provider failed.
#[derive(Debug, Clone, Copy, PartialEq, Eq, Structural)]
pub enum UpstreamError {
    /// The request failed or the status was not a success.
    Http,
    /// The body did not have the expected shape.
    Decode,
}

/// Why a login callback failed. None of these is retried.
#[derive(Debug, Clone, Copy, PartialEq, Eq, Structural)]
pub enum CallbackError {
    UpstreamHttpFailure,
    UpstreamDecodeFailure,
    Storage(ModelError),
    /// An answer came that the flow was not waiting for.
    OutOfOrder,
}

impl CallbackError {
    /// The handler failure a callback error surfaces as: an HTTP failure for
    /// anything the provider did, a database failure for the store.
    pub fn to_handler_error(&self) -> (r: HandlerError)
        ensures
            r == (match self {
                CallbackError::Storage(e) => HandlerError::DatabaseError(*e),
                _ => HandlerError::HttpError,
            }),
    {
        match self {
            CallbackError::Storage(e) => HandlerError::DatabaseError(*e),
            _ => HandlerError::HttpError,
        }
    }
}

/// Where a login callback stands.
#[derive(Debug, Clone, Copy, PartialEq, Eq, Structural)]
pub enum CallbackState {
    AwaitingToken,
    AwaitingProfile,
    AwaitingStore,
    Done,
    Failed,
}

/// An answer to the last action.
pub enum CallbackEvent {
    Token(Result<AuthorizationResponse, UpstreamError>),
    Profile(Result<UserResponse, UpstreamError>),
    Stored(Result<GhUserRecord, ModelError>),
}

pub enum CallbackEventView {
    Token(Result<Seq<char>, UpstreamError>),
    Profile(Result<IdentityView, UpstreamError>),
    Stored(Result<IdentityView, ModelError>),
}

impl View for CallbackEvent {
    type V = CallbackEventView;

    open spec fn view(&self) -> CallbackEventView {
        match self {
            CallbackEvent::Token(Ok(t)) => CallbackEventView::Token(Ok(t.access_token@)),
            CallbackEvent::Token(Err(e)) => CallbackEventView::Token(Err(*e)),
            CallbackEvent::Profile(Ok(p)) => CallbackEventView::Profile(Ok(p@)),
            CallbackEvent::Profile(Err(e)) => CallbackEventView::Profile(Err(*e)),
            CallbackEvent::Stored(Ok(u)) => CallbackEventView::Stored(Ok(u@)),
            CallbackEvent::Stored(Err(e)) => CallbackEventView::Stored(Err(*e)),
        }
    }
}

/// What the application does next.
pub enum CallbackAction {
    /// POST this form to the token endpoint.
    RequestToken(Vec<(String, String)>),
    /// GET the profile endpoint with this `Authorization` header.
    RequestProfile(String),
    /// Upsert this profile into the identity cache.
    Store(UserResponse),
    /// Set the session cookie to this value and redirect to the entry page.
    SetSession(String),
    /// Abort with this error; nothing further is written.
    Fail(CallbackError),
}

pub enum CallbackActionView {
    RequestToken(Seq<(Seq<char>, Seq<char>)>),
    RequestProfile(Seq<char>),
    Store(IdentityView),
    SetSession(Seq<char>),
    Fail(CallbackError),
}

impl View for CallbackAction {
    type V = CallbackActionView;

    open spec fn view(&self) -> CallbackActionView {
        match self {
            CallbackAction::RequestToken(f) => CallbackActionView::RequestToken(pairs_view(f@)),
            CallbackAction::RequestProfile(h) => CallbackActionView::RequestProfile(h@),
            CallbackAction::Store(p) => CallbackActionView::Store(p@),
            CallbackAction::SetSession(s) => CallbackActionView::SetSession(s@),
            CallbackAction::Fail(e) => CallbackActionView::Fail(*e),
        }
    }
}

pub open spec fn upstream_failure(e: UpstreamError) -> CallbackError {
    match e {
        UpstreamError::Http => CallbackError::UpstreamHttpFailure,
        UpstreamError::Decode => CallbackError::UpstreamDecodeFailure,
    }
}

/// One step of the callback: each answer either moves the flow on or ends it
/// with an error. The profile is stored only after both provider calls
/// succeeded, and the session is set only after the store succeeded.
pub open spec fn callback_next(state: CallbackState, event: CallbackEventView) -> (
    CallbackState,
    CallbackActionView,
) {
    match (state, event) {
        (CallbackState::AwaitingToken, CallbackEventView::Token(Ok(t))) => (
            CallbackState::AwaitingProfile,
            CallbackActionView::RequestProfile("token "@ + t),
        ),
        (CallbackState::AwaitingToken, CallbackEventView::Token(Err(e))) => (
            CallbackState::Failed,
            CallbackActionView::Fail(upstream_failure(e)),
        ),
        (CallbackState::AwaitingProfile, CallbackEventView::Profile(Ok(p))) => (
            CallbackState::AwaitingStore,
            CallbackActionView::Store(p),
        ),
        (CallbackState::AwaitingProfile, CallbackEventView::Profile(Err(e))) => (
            CallbackState::Failed,
            CallbackActionView::Fail(upstream_failure(e)),
        ),
        (CallbackState::AwaitingStore, CallbackEventView::Stored(Ok(u))) => (
            CallbackState::Done,
            CallbackActionView::SetSession(session_token(u.id)),
        ),
        (CallbackState::AwaitingStore, CallbackEventView::Stored(Err(e))) => (
            CallbackState::Failed,
            CallbackActionView::Fail(CallbackError::Storage(e)),
        ),
        _ => (CallbackState::Failed, CallbackActionView::Fail(CallbackError::OutOfOrder)),
    }
}

fn upstream_error(e: UpstreamError) -> (r: CallbackError)
    ensures
        r == upstream_failure(e),
{
    match e {
        UpstreamError::Http => CallbackError::UpstreamHttpFailure,
        UpstreamError::Decode => CallbackError::UpstreamDecodeFailure,
    }
}

/// Starts a callback for the authorization code the provider sent: the
/// code is exchanged for a token first.
pub fn callback_start(credentials: &GhCredentials, code: &str) -> (r: (CallbackState, CallbackAction))
    ensures
        r.0 == CallbackState::AwaitingToken,
        r.1@ == CallbackActionView::RequestToken(
            token_form(credentials.client_id@, credentials.client_secret@, code@),
        ),
{
    (CallbackState::AwaitingToken, CallbackAction::RequestToken(credentials.token_request_form(code)))
}

/// Takes the callback one step on from `state` with the answer `event`.
pub fn callback_step(state: CallbackState, event: CallbackEvent) -> (r: (
    CallbackState,
    CallbackAction,
))
    ensures
        (r.0, r.1@) == callback_next(state, event@),
{
    match (state, event) {
        (CallbackState::AwaitingToken, CallbackEvent::Token(Ok(t))) => (
            CallbackState::AwaitingProfile,
            CallbackAction::RequestProfile(t.access_token.authorization_header()),
        ),
        (CallbackState::AwaitingToken, CallbackEvent::Token(Err(e))) => (
            CallbackState::Failed,
            CallbackAction::Fail(upstream_error(e)),
        ),
        (CallbackState::AwaitingProfile, CallbackEvent::Profile(Ok(p))) => (
            CallbackState::AwaitingStore,
            CallbackAction::Store(p),
        ),
        (CallbackState::AwaitingProfile, CallbackEvent::Profile(Err(e))) => (
            CallbackState::Failed,
            CallbackAction::Fail(upstream_error(e)),
        ),
        (CallbackState::AwaitingStore, CallbackEvent::Stored(Ok(u))) => (
            CallbackState::Done,
            CallbackAction::SetSession(format_i64(u.id)),
        ),
        (CallbackState::AwaitingStore, CallbackEvent::Stored(Err(e))) => (
            CallbackState::Failed,
            CallbackAction::Fail(CallbackError::Storage(e)),
        ),
        _ => (CallbackState::Failed, CallbackAction::Fail(CallbackError::OutOfOrder)),
    }
}

/// A callback writes to the identity cache only when it was waiting for the
/// profile and the profile request succeeded, and it waits for the profile
/// only after a successful token exchange. A failed step ends the flow for
/// good: every later answer is refused and nothing more is written.
pub proof fn lemma_store_only_after_success(state: CallbackState, event: CallbackEventView)
    ensures
        callback_next(state, event).1 is Store ==> state == CallbackState::AwaitingProfile
            && event is Profile && event->Profile_0 is Ok,
        callback_next(state, event).0 == CallbackState::AwaitingProfile ==> state
            == CallbackState::AwaitingToken && event is Token && event->Token_0 is Ok,
        state == CallbackState::Failed ==> callback_next(state, event) == (
            CallbackState::Failed,
            CallbackActionView::Fail(CallbackError::OutOfOrder),
        ),
{
}

} // verus!
