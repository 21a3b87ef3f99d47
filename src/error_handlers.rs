//! What error pages say, and which status each failure of a handler gets.
use crate::decimal::{decimal_text, format_i64};
use crate::models::ModelError;
use vstd::prelude::*;

verus! {

/// What an error page shows.
pub struct ErrorContext {
    /// `code: message`.
    pub message: String,
    /// Error pages hide the login controls.
    pub suppress_auth_controls: bool,
}

impl ErrorContext {
    /// The page for status `code` with the given explanation.
    pub fn new(code: i32, message: &str) -> (r: ErrorContext)
        ensures
            r.message@ == decimal_text(code as int) + ": "@ + message@,
            r.suppress_auth_controls,
    {
        let mut text = format_i64(code as i64);
        text.append(": ");
        text.append(message);
        ErrorContext { message: text, suppress_auth_controls: true }
    }

    /// The page the site shows for a status it catches: not found, not
    /// authorized, forbidden, or a server error.
    pub fn for_status(code: i32) -> (r: Option<ErrorContext>)
        ensures
            code == 404 ==> (r matches Some(c) && c.message@ == decimal_text(404) + ": "@
                + "Page not found."@),
            code == 401 ==> (r matches Some(c) && c.message@ == decimal_text(401) + ": "@
                + "You must be logged in to view this page."@),
            code == 403 ==> (r matches Some(c) && c.message@ == decimal_text(403) + ": "@
                + "You cannot view this page."@),
            code == 500 ==> (r matches Some(c) && c.message@ == decimal_text(500) + ": "@
                + "Internal Server Error."@),
            code != 404 && code != 401 && code != 403 && code != 500 ==> r is None,
    {
        if code == 404 {
            Some(ErrorContext::new(404, "Page not found."))
        } else if code == 401 {
            Some(ErrorContext::new(401, "You must be logged in to view this page."))
        } else if code == 403 {
            Some(ErrorContext::new(403, "You cannot view this page."))
        } else if code == 500 {
            Some(ErrorContext::new(500, "Internal Server Error."))
        } else {
            None
        }
    }
}

/// Why a page handler failed.
#[derive(Debug, Clone, Copy, PartialEq, Eq, Structural)]
pub enum HandlerError {
    NotFound,
    PoolError,
    DatabaseError(ModelError),
    AttachmentStorageError,
    HttpError,
    ParseError,
    DieselError,
    ApprovalStateParseError,
}

impl HandlerError {
    /// The status a failed handler answers with: not found for a missing
    /// resource, a server error for everything else.
    pub fn status(&self) -> (r: u16)
        ensures
            r == (if *self == HandlerError::NotFound {
                404u16
            } else {
                500u16
            }),
    {
        match self {
            HandlerError::NotFound => 404,
            _ => 500,
        }
    }
}

/// How a failed login callback answers: a server error with a description.
pub enum GithubCallbackError {
    AuthError(String),
}

impl GithubCallbackError {
    /// The status of the answer.
    pub fn status(&self) -> (r: u16)
        ensures
            r == 500,
    {
        500
    }
}

} // verus!
