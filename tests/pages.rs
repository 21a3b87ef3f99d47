use udevgames::breadcrumbs::{Breadcrumb, Breadcrumbs};
use udevgames::error_handlers::{ErrorContext, GithubCallbackError, HandlerError};
use udevgames::models::{r_to_opt, ApprovalState, ApprovalStateParseError, ModelError, QueryFailure};
use udevgames::rich_texts::RichText;

#[test]
fn breadcrumbs_default_to_home() {
    let ctx = Breadcrumbs::from_crumbs(vec![]).to_context();
    assert_eq!(ctx.crumbs().len(), 1);
    assert_eq!(ctx.crumbs()[0].content(), "Home");
    assert_eq!(ctx.crumbs()[0].href(), "/");
    let two = Breadcrumbs::from_crumbs(vec![Breadcrumb::Home, Breadcrumb::Home]).to_context();
    assert_eq!(two.crumbs().len(), 2);
}

#[test]
fn error_pages() {
    let c = ErrorContext::new(404, "Page not found.");
    assert_eq!(c.message, "404: Page not found.");
    assert!(c.suppress_auth_controls);
    assert_eq!(ErrorContext::new(-1, "x").message, "-1: x");
    assert_eq!(
        ErrorContext::for_status(401).unwrap().message,
        "401: You must be logged in to view this page."
    );
    assert_eq!(ErrorContext::for_status(403).unwrap().message, "403: You cannot view this page.");
    assert_eq!(ErrorContext::for_status(500).unwrap().message, "500: Internal Server Error.");
    assert!(ErrorContext::for_status(418).is_none());
}

#[test]
fn handler_statuses() {
    assert_eq!(HandlerError::NotFound.status(), 404);
    assert_eq!(HandlerError::PoolError.status(), 500);
    assert_eq!(HandlerError::DatabaseError(ModelError::DieselError).status(), 500);
    assert_eq!(GithubCallbackError::AuthError("x".to_string()).status(), 500);
}

#[test]
fn approval_states() {
    for (name, state, code) in [
        ("Draft", ApprovalState::Draft, 0),
        ("Submitted", ApprovalState::Submitted, 2),
        ("Approved", ApprovalState::Approved, 4),
        ("Rejected", ApprovalState::Rejected, 8),
    ] {
        assert_eq!(ApprovalState::from_human_str(name).ok(), Some(state));
        assert_eq!(state.to_human_str(), name);
        assert_eq!(state.to_code(), code);
        assert_eq!(ApprovalState::from_code(code), Some(state));
    }
    match ApprovalState::from_human_str("draft") {
        Err(ApprovalStateParseError::UnrecognizedApprovalState(s)) => assert_eq!(s, "draft"),
        Ok(_) => panic!("expected an error"),
    }
    assert_eq!(ApprovalState::from_code(1), None);
}

#[test]
fn absence_is_not_an_error() {
    assert_eq!(r_to_opt::<i32>(Ok(3)), Ok(Some(3)));
    assert_eq!(r_to_opt::<i32>(Err(QueryFailure::NotFound)), Ok(None));
    assert_eq!(r_to_opt::<i32>(Err(QueryFailure::Failed)), Err(ModelError::DieselError));
}

#[test]
fn rich_text_renders_markdown() {
    let t = RichText { id: 1, content: "# Hi\n\n*there*".to_string() };
    assert_eq!(t.render(), "<h1>Hi</h1>\n<p><em>there</em></p>\n");
    assert_eq!(RichText { id: 2, content: "".to_string() }.render(), "");
}
