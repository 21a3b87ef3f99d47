use udevgames::error_handlers::HandlerError;
use udevgames::identity::GhUserRecord;
use udevgames::models::ModelError;
use udevgames::oauth::{
    callback_start, callback_step, AccessToken, AuthorizationResponse, CallbackAction,
    CallbackError, CallbackEvent, CallbackState, GhCredentials, UpstreamError, UserResponse,
};

fn credentials() -> GhCredentials {
    GhCredentials { client_id: "cid".to_string(), client_secret: "SECRET-REDACTED".to_string() }
}

fn token(t: &str) -> AuthorizationResponse {
    AuthorizationResponse {
        access_token: AccessToken::new(t.to_string()),
        token_type: "bearer".to_string(),
        scope: "".to_string(),
    }
}

fn profile() -> UserResponse {
    UserResponse {
        id: 42,
        login: "ed".to_string(),
        avatar_url: "a".to_string(),
        html_url: "b".to_string(),
    }
}

#[test]
fn authorize_url_carries_only_the_client_id() {
    assert_eq!(
        credentials().authorize_url(),
        "http://github.com/login/oauth/authorize?client_id=cid"
    );
}

#[test]
fn token_form() {
    let form = credentials().token_request_form("xyz");
    assert_eq!(
        form,
        vec![
            ("client_id".to_string(), "cid".to_string()),
            ("client_secret".to_string(), "SECRET-REDACTED".to_string()),
            ("code".to_string(), "xyz".to_string()),
        ]
    );
}

#[test]
fn description_redacts_the_token() {
    let d = token("tok123").describe();
    assert_eq!(d, "AuthorizationResponse { access_token: REDACTED, token_type: bearer, scope:  }");
    assert!(!d.contains("tok123"));
    assert_eq!(AccessToken::new("tok123".to_string()).authorization_header(), "token tok123");
}

#[test]
fn callback_succeeds_in_order() {
    let (state, action) = callback_start(&credentials(), "code1");
    assert_eq!(state, CallbackState::AwaitingToken);
    match action {
        CallbackAction::RequestToken(form) => assert_eq!(form[2].1, "code1"),
        _ => panic!("expected the token request"),
    }
    let (state, action) = callback_step(state, CallbackEvent::Token(Ok(token("tok"))));
    assert_eq!(state, CallbackState::AwaitingProfile);
    match action {
        CallbackAction::RequestProfile(h) => assert_eq!(h, "token tok"),
        _ => panic!("expected the profile request"),
    }
    let (state, action) = callback_step(state, CallbackEvent::Profile(Ok(profile())));
    assert_eq!(state, CallbackState::AwaitingStore);
    match action {
        CallbackAction::Store(p) => assert_eq!(p.login, "ed"),
        _ => panic!("expected the store"),
    }
    let stored = GhUserRecord::new(42, "ed", "a", "b");
    let (state, action) = callback_step(state, CallbackEvent::Stored(Ok(stored)));
    assert_eq!(state, CallbackState::Done);
    match action {
        CallbackAction::SetSession(v) => assert_eq!(v, "42"),
        _ => panic!("expected the session"),
    }
}

#[test]
fn callback_failures_end_the_flow() {
    let (state, action) =
        callback_step(CallbackState::AwaitingToken, CallbackEvent::Token(Err(UpstreamError::Http)));
    assert_eq!(state, CallbackState::Failed);
    assert!(matches!(action, CallbackAction::Fail(CallbackError::UpstreamHttpFailure)));
    // a late profile after a failure is refused and stores nothing
    let (state, action) = callback_step(state, CallbackEvent::Profile(Ok(profile())));
    assert_eq!(state, CallbackState::Failed);
    assert!(matches!(action, CallbackAction::Fail(CallbackError::OutOfOrder)));

    let (_, action) = callback_step(
        CallbackState::AwaitingProfile,
        CallbackEvent::Profile(Err(UpstreamError::Decode)),
    );
    assert!(matches!(action, CallbackAction::Fail(CallbackError::UpstreamDecodeFailure)));
    let (_, action) = callback_step(
        CallbackState::AwaitingStore,
        CallbackEvent::Stored(Err(ModelError::PoolError)),
    );
    assert!(matches!(action, CallbackAction::Fail(CallbackError::Storage(ModelError::PoolError))));
    // a profile before the token is out of order
    let (_, action) =
        callback_step(CallbackState::AwaitingToken, CallbackEvent::Profile(Ok(profile())));
    assert!(matches!(action, CallbackAction::Fail(CallbackError::OutOfOrder)));
}

#[test]
fn callback_errors_surface_as_handler_errors() {
    assert_eq!(CallbackError::UpstreamHttpFailure.to_handler_error(), HandlerError::HttpError);
    assert_eq!(CallbackError::OutOfOrder.to_handler_error(), HandlerError::HttpError);
    assert_eq!(
        CallbackError::Storage(ModelError::DieselError).to_handler_error(),
        HandlerError::DatabaseError(ModelError::DieselError)
    );
    assert_eq!(CallbackError::UpstreamDecodeFailure.to_handler_error().status(), 500);
}
