//! The auth resolver: turns a request's session token into the identity it
//! names and that identity's permission names. The session token is a
//! tamper-evident cookie (sealed by the web framework) whose only payload is
//! the identity id written in decimal.
use crate::decimal::{decimal_text, format_i64, i64_of_text, parse_i64};
use crate::identity::{GhUserRecord, IdentityTable, IdentityView, lookup};
use crate::permissions::{GrantTable, Permission, row_names, strings_view};
use vstd::prelude::*;

verus! {

/// Name of the cookie that carries the session.
pub const SESSION_COOKIE: &'static str = "gh_user_id";

/// The payload of a session for identity `id`.
pub open spec fn session_token(id: i64) -> Seq<char> {
    decimal_text(id as int)
}

/// Why a request's authorization could not be resolved.
#[derive(Debug, Clone, Copy, PartialEq, Eq, Structural)]
pub enum AuthFromRequestError {
    /// No database connection could be had.
    DbPoolError,
    /// The session token does not hold an identity id.
    UserIdDecodeError,
    /// A lookup of the identity or its permissions failed.
    DbQueryError,
}

impl AuthFromRequestError {
    /// The HTTP status a request fails with: a server error when no
    /// connection could be had, else a client error.
    pub fn status(&self) -> (r: u16)
        ensures
            r == (match self {
                AuthFromRequestError::DbPoolError => 500u16,
                _ => 400u16,
            }),
    {
        match self {
            AuthFromRequestError::DbPoolError => 500,
            AuthFromRequestError::UserIdDecodeError => 400,
            AuthFromRequestError::DbQueryError => 400,
        }
    }
}

/// What resolving a request has to read.
#[derive(Debug, Clone, Copy, PartialEq, Eq, Structural)]
pub enum AuthPlan {
    /// No session: the request is anonymous and nothing is read.
    Anonymous,
    /// Read the identity with this id and its permissions.
    Load(i64),
}

/// The plan for a request, given its session token if it carries one.
pub open spec fn auth_plan(token: Option<Seq<char>>) -> Result<AuthPlan, AuthFromRequestError> {
    match token {
        None => Ok(AuthPlan::Anonymous),
        Some(t) => match i64_of_text(t) {
            Some(id) => Ok(AuthPlan::Load(id)),
            None => Err(AuthFromRequestError::UserIdDecodeError),
        },
    }
}

/// A resolved request: the identity, if any, and its permission names.
pub struct AuthContext {
    pub user: Option<GhUserRecord>,
    pub permissions: Vec<String>,
}

pub struct AuthView {
    pub user: Option<IdentityView>,
    pub permissions: Seq<Seq<char>>,
}

impl View for AuthContext {
    type V = AuthView;

    open spec fn view(&self) -> AuthView {
        AuthView {
            user: match self.user {
                Some(u) => Some(u@),
                None => None,
            },
            permissions: strings_view(self.permissions@),
        }
    }
}

/// The anonymous result: no identity, no permissions.
pub open spec fn anonymous_view() -> AuthView {
    AuthView { user: None, permissions: Seq::empty() }
}

/// The result of a load: anonymous when the identity is gone, else the
/// identity with the names of its grants.
pub open spec fn resolved(user: Option<IdentityView>, names: Seq<Seq<char>>) -> AuthView {
    match user {
        None => anonymous_view(),
        Some(u) => AuthView { user: Some(u), permissions: names },
    }
}

/// The names granted to `id` in a grant table, in table order.
pub open spec fn table_names(grants: GrantTable, id: i64) -> Seq<Seq<char>> {
    grants.filter(|k: (i64, Seq<char>)| k.0 == id).map_values(|k: (i64, Seq<char>)| k.1)
}

/// What a request resolves to against given identity and grant tables.
pub open spec fn resolve_request(
    token: Option<Seq<char>>,
    identities: IdentityTable,
    grants: GrantTable,
) -> Result<AuthView, AuthFromRequestError> {
    match auth_plan(token) {
        Err(e) => Err(e),
        Ok(AuthPlan::Anonymous) => Ok(anonymous_view()),
        Ok(AuthPlan::Load(id)) => Ok(resolved(lookup(identities, id), table_names(grants, id))),
    }
}

/// The cookie payload that binds a session to identity `id`.
pub fn issue_session(id: i64) -> (r: String)
    ensures
        r@ == session_token(id),
{
    format_i64(id)
}

/// Decides what resolving a request reads, from its session token: nothing
/// when there is none, the identity it names when it decodes, and a client
/// error when it does not.
pub fn plan_auth(token: Option<&str>) -> (r: Result<AuthPlan, AuthFromRequestError>)
    ensures
        r == auth_plan(
            match token {
                Some(t) => Some(t@),
                None => None,
            },
        ),
{
    match token {
        None => Ok(AuthPlan::Anonymous),
        Some(t) => match parse_i64(t) {
            Some(id) => Ok(AuthPlan::Load(id)),
            None => Err(AuthFromRequestError::UserIdDecodeError),
        },
    }
}

/// The anonymous result.
pub fn anonymous() -> (r: AuthContext)
    ensures
        r@ == anonymous_view(),
{
    let r = AuthContext { user: None, permissions: Vec::new() };
    assert(r@.permissions =~= Seq::<Seq<char>>::empty());
    r
}

/// Completes a load from what the two reads returned: the identity found by
/// id, if any, and the grant rows of that id. An identity that is gone
/// resolves to the anonymous result, not to an error.
pub fn resolve_auth(user: Option<GhUserRecord>, grants: &Vec<Permission>) -> (r: AuthContext)
    ensures
        r@ == resolved(
            match user {
                Some(u) => Some(u@),
                None => None,
            },
            row_names(grants@),
        ),
{
    match user {
        None => anonymous(),
        Some(u) => AuthContext { user: Some(u), permissions: Permission::names(grants) },
    }
}

/// Without a session token nothing is read and the request is anonymous,
/// whatever the tables hold.
pub proof fn lemma_no_token_anonymous(identities: IdentityTable, grants: GrantTable)
    ensures
        auth_plan(None) == Ok::<AuthPlan, AuthFromRequestError>(AuthPlan::Anonymous),
        resolve_request(None, identities, grants) == Ok::<AuthView, AuthFromRequestError>(
            anonymous_view(),
        ),
{
}

/// A session naming an identity that the table does not hold resolves to
/// the anonymous result, not to an error.
pub proof fn lemma_missing_identity_anonymous(id: i64, identities: IdentityTable, grants: GrantTable)
    requires
        !identities.contains_key(id),
    ensures
        resolve_request(Some(session_token(id)), identities, grants) == Ok::<
            AuthView,
            AuthFromRequestError,
        >(anonymous_view()),
{
    crate::decimal::lemma_i64_text_round_trip(id);
}

/// A session issued for `id` resolves to the identity stored under `id`;
/// once the session is cleared the request resolves to no identity.
pub proof fn lemma_session_round_trip(id: i64, identities: IdentityTable, grants: GrantTable)
    requires
        identities.contains_key(id),
    ensures
        auth_plan(Some(session_token(id))) == Ok::<AuthPlan, AuthFromRequestError>(
            AuthPlan::Load(id),
        ),
        resolve_request(Some(session_token(id)), identities, grants) matches Ok(v) && v.user
            == Some(identities[id]),
        resolve_request(None, identities, grants) matches Ok(v) && v.user is None,
{
    crate::decimal::lemma_i64_text_round_trip(id);
}

} // verus!
