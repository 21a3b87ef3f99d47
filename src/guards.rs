//! The two request guards built on the auth resolver, and the views of the
//! caller they hand to presentation. `UserOptional` always admits and passes
//! the resolver's result through; `AdminOnly` admits only a caller that holds
//! the `admin` permission. Neither view carries a session or provider token.
use crate::auth::{AuthContext, AuthFromRequestError, AuthView};
use crate::identity::{GhUserRecord, IdentityView};
use crate::permissions::strings_view;
use vstd::prelude::*;

verus! {

/// The name of the permission that `AdminOnly` asks for.
pub open spec fn admin_name() -> Seq<char> {
    seq!['a', 'd', 'm', 'i', 'n']
}

/// True when the names include `admin`.
pub open spec fn is_admin_view(names: Seq<Seq<char>>) -> bool {
    names.contains(admin_name())
}

/// The permission name that `AdminOnly` asks for.
pub fn admin_permission() -> (r: String)
    ensures
        r@ == admin_name(),
{
    let r = String::from_str("admin");
    proof {
        reveal_strlit("admin");
        assert(r@ =~= admin_name());
    }
    r
}

/// True when `perms` holds a name equal to `name`.
pub fn holds_permission(perms: &Vec<String>, name: &String) -> (r: bool)
    ensures
        r == strings_view(perms@).contains(name@),
{
    let mut i: usize = 0;
    while i < perms.len()
        invariant
            0 <= i <= perms.len(),
            forall|j: int| 0 <= j < i ==> (#[trigger] perms@[j])@ != name@,
        decreases perms.len() - i,
    {
        if perms[i] == *name {
            assert(strings_view(perms@)[i as int] == name@);
            return true;
        }
        i = i + 1;
    }
    proof {
        if strings_view(perms@).contains(name@) {
            let j = choose|j: int|
                0 <= j < strings_view(perms@).len() && strings_view(perms@)[j] == name@;
            assert(perms@[j]@ == strings_view(perms@)[j]);
        }
    }
    false
}

fn copy_names(v: &Vec<String>) -> (r: Vec<String>)
    ensures
        strings_view(r@) == strings_view(v@),
{
    let mut r: Vec<String> = Vec::new();
    let mut i: usize = 0;
    while i < v.len()
        invariant
            0 <= i <= v.len(),
            r@.len() == i,
            forall|j: int| 0 <= j < i ==> (#[trigger] r@[j])@ == v@[j]@,
        decreases v.len() - i,
    {
        r.push(v[i].clone());
        i = i + 1;
    }
    assert(strings_view(r@) =~= strings_view(v@));
    r
}

/// The fields that describe a caller to a template.
pub struct TemplateContextUser {
    /// The caller's numeric id.
    pub id: i64,
    /// The caller's login.
    pub login: String,
    /// The caller's provider profile link.
    pub html_url: String,
    /// The caller's avatar.
    pub avatar_url: String,
    /// The caller's permission names.
    pub permissions: Vec<String>,
}

/// The caller's view: identity fields and permission names.
pub struct CallerView {
    pub identity: IdentityView,
    pub permissions: Seq<Seq<char>>,
}

impl View for TemplateContextUser {
    type V = CallerView;

    open spec fn view(&self) -> CallerView {
        CallerView {
            identity: IdentityView {
                id: self.id,
                login: self.login@,
                avatar_url: self.avatar_url@,
                html_url: self.html_url@,
            },
            permissions: strings_view(self.permissions@),
        }
    }
}

fn context_user(user: &GhUserRecord, permissions: &Vec<String>) -> (r: TemplateContextUser)
    ensures
        r@ == (CallerView { identity: user@, permissions: strings_view(permissions@) }),
{
    TemplateContextUser {
        id: user.id,
        login: user.login.clone(),
        html_url: user.html_url.clone(),
        avatar_url: user.avatar_url.clone(),
        permissions: copy_names(permissions),
    }
}

/// What a page that anyone may view is told of its caller.
pub struct UserOptionalContext {
    /// The caller, when someone is logged in.
    pub user: Option<TemplateContextUser>,
}

/// What an admin-only page is told of its caller.
pub struct AdminOnlyContext {
    /// The caller.
    pub user: TemplateContextUser,
}

/// Guard for pages that anyone may view but that change with the caller.
pub struct UserOptional {
    user: Option<GhUserRecord>,
    permissions: Vec<String>,
}

impl View for UserOptional {
    type V = AuthView;

    closed spec fn view(&self) -> AuthView {
        AuthView {
            user: match self.user {
                Some(u) => Some(u@),
                None => None,
            },
            permissions: strings_view(self.permissions@),
        }
    }
}

impl UserOptional {
    /// Admits every caller, carrying the resolver's result as it is.
    pub fn from_auth(auth: AuthContext) -> (r: UserOptional)
        ensures
            r@ == auth@,
    {
        let r = UserOptional { user: auth.user, permissions: auth.permissions };
        r
    }

    /// The caller's identity, if someone is logged in.
    pub fn user(&self) -> (r: Option<&GhUserRecord>)
        ensures
            match r {
                Some(u) => self@.user == Some(u@),
                None => self@.user is None,
            },
    {
        match &self.user {
            Some(u) => Some(u),
            None => None,
        }
    }

    /// True when a caller is logged in and holds `admin`.
    pub fn is_admin(&self) -> (r: bool)
        ensures
            r == (self@.user is Some && is_admin_view(self@.permissions)),
    {
        match &self.user {
            None => false,
            Some(_) => holds_permission(&self.permissions, &admin_permission()),
        }
    }

    /// The view handed to a template: the caller's fields and permission
    /// names when someone is logged in, else no user.
    pub fn to_context(&self) -> (r: UserOptionalContext)
        ensures
            match self@.user {
                Some(u) => r.user matches Some(c) && c@ == (CallerView {
                    identity: u,
                    permissions: self@.permissions,
                }),
                None => r.user is None,
            },
    {
        UserOptionalContext {
            user: match &self.user {
                Some(u) => Some(context_user(u, &self.permissions)),
                None => None,
            },
        }
    }
}

/// Why `AdminOnly` refused a request.
#[derive(Debug, Clone, Copy, PartialEq, Eq, Structural)]
pub enum AdminOnlyError {
    /// The caller does not hold `admin`.
    NotAdmin,
    /// No caller is logged in.
    NotLoggedIn,
    /// No database connection could be had.
    DbPoolError,
    /// The session token does not hold an identity id.
    UserIdDecodeError,
    /// A lookup of the identity or its permissions failed.
    DbQueryError,
}

impl AdminOnlyError {
    /// The same failure as the resolver reported it.
    pub fn from_auth_error(e: AuthFromRequestError) -> (r: AdminOnlyError)
        ensures
            r == (match e {
                AuthFromRequestError::DbPoolError => AdminOnlyError::DbPoolError,
                AuthFromRequestError::UserIdDecodeError => AdminOnlyError::UserIdDecodeError,
                AuthFromRequestError::DbQueryError => AdminOnlyError::DbQueryError,
            }),
    {
        match e {
            AuthFromRequestError::DbPoolError => AdminOnlyError::DbPoolError,
            AuthFromRequestError::UserIdDecodeError => AdminOnlyError::UserIdDecodeError,
            AuthFromRequestError::DbQueryError => AdminOnlyError::DbQueryError,
        }
    }

    /// The HTTP status of the refusal: forbidden when the caller is unknown
    /// or not an admin (never a challenge to log in), a server error when no
    /// connection could be had, else a client error.
    pub fn status(&self) -> (r: u16)
        ensures
            r == (match self {
                AdminOnlyError::NotAdmin => 403u16,
                AdminOnlyError::NotLoggedIn => 403u16,
                AdminOnlyError::DbPoolError => 500u16,
                _ => 400u16,
            }),
    {
        match self {
            AdminOnlyError::NotAdmin => 403,
            AdminOnlyError::NotLoggedIn => 403,
            AdminOnlyError::DbPoolError => 500,
            AdminOnlyError::UserIdDecodeError => 400,
            AdminOnlyError::DbQueryError => 400,
        }
    }
}

/// The outcome `AdminOnly` gives a resolved caller.
pub open spec fn admin_decision(auth: AuthView) -> Result<(), AdminOnlyError> {
    match auth.user {
        None => Err(AdminOnlyError::NotLoggedIn),
        Some(_) => if is_admin_view(auth.permissions) {
            Ok(())
        } else {
            Err(AdminOnlyError::NotAdmin)
        },
    }
}

/// Guard for pages that only an admin may reach.
pub struct AdminOnly {
    user: GhUserRecord,
    permissions: Vec<String>,
}

impl View for AdminOnly {
    type V = CallerView;

    closed spec fn view(&self) -> CallerView {
        CallerView { identity: self.user@, permissions: strings_view(self.permissions@) }
    }
}

impl AdminOnly {
    /// Admits a caller who is logged in and holds `admin`; refuses anyone
    /// else with `NotLoggedIn` or `NotAdmin`.
    pub fn from_auth(auth: AuthContext) -> (r: Result<AdminOnly, AdminOnlyError>)
        ensures
            match admin_decision(auth@) {
                Ok(_) => r matches Ok(a) && auth@.user == Some(a@.identity) && a@.permissions
                    == auth@.permissions,
                Err(e) => r matches Err(f) && f == e,
            },
    {
        match auth.user {
            None => Err(AdminOnlyError::NotLoggedIn),
            Some(user) => {
                if holds_permission(&auth.permissions, &admin_permission()) {
                    Ok(AdminOnly { user, permissions: auth.permissions })
                } else {
                    Err(AdminOnlyError::NotAdmin)
                }
            },
        }
    }

    /// The admitted caller.
    pub fn user(&self) -> (r: &GhUserRecord)
        ensures
            r@ == self@.identity,
    {
        &self.user
    }

    /// The view handed to a template.
    pub fn to_context(&self) -> (r: AdminOnlyContext)
        ensures
            r.user@ == self@,
    {
        AdminOnlyContext { user: context_user(&self.user, &self.permissions) }
    }
}

/// `AdminOnly` refuses a caller whose only permission is `editor` and admits
/// one who holds `admin` and `editor`.
pub proof fn lemma_admin_only_editor(u: IdentityView)
    ensures
        admin_decision(AuthView { user: Some(u), permissions: seq![editor_name()] })
            == Err::<(), AdminOnlyError>(AdminOnlyError::NotAdmin),
        admin_decision(AuthView { user: Some(u), permissions: seq![admin_name(), editor_name()] })
            == Ok::<(), AdminOnlyError>(()),
{
    let only = seq![editor_name()];
    assert(only[0] != admin_name()) by {
        assert(only[0][0] != admin_name()[0]);
    }
    let both = seq![admin_name(), editor_name()];
    assert(both[0] == admin_name());
}

/// The name `editor`.
pub open spec fn editor_name() -> Seq<char> {
    seq!['e', 'd', 'i', 't', 'o', 'r']
}

} // verus!
