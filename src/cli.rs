//! The permission commands of the command line: how a user reference is
//! read, what each command reads and writes, and the lines it prints.
use crate::cliopts::{PermissionShow, PermissionSubCommand};
use crate::decimal::{decimal_digits, decimal_text, format_i64, format_u64, i64_of_text, parse_i64};
use crate::identity::GhUserRecord;
use crate::permissions::Permission;
use vstd::prelude::*;

verus! {

/// A user as a command names them: by login (written `@login`) or by id.
pub enum UserIdentity {
    /// A user known by login.
    Login(String),
    /// A user known by id.
    Id(i64),
}

pub enum UserIdentityView {
    Login(Seq<char>),
    Id(i64),
}

impl View for UserIdentity {
    type V = UserIdentityView;

    open spec fn view(&self) -> UserIdentityView {
        match self {
            UserIdentity::Login(l) => UserIdentityView::Login(l@),
            UserIdentity::Id(id) => UserIdentityView::Id(*id),
        }
    }
}

/// Why a permission command cannot go on. Each is fatal to the command.
#[derive(Debug, Clone, Copy, PartialEq, Eq, Structural)]
pub enum CommandError {
    /// A user reference is neither `@login` nor a number.
    BadUserReference,
    /// No user has the login a reference names.
    NoSuchUser,
    /// A show command named neither a user nor a permission.
    NothingToShow,
}

/// How a user reference reads: `@` then a login, or else a decimal id.
pub open spec fn user_reference(s: Seq<char>) -> Result<UserIdentityView, CommandError> {
    if s.len() > 0 && s[0] == '@' {
        Ok(UserIdentityView::Login(s.drop_first()))
    } else {
        match i64_of_text(s) {
            Some(id) => Ok(UserIdentityView::Id(id)),
            None => Err(CommandError::BadUserReference),
        }
    }
}

/// The lookup that finds a named user.
pub enum UserQuery {
    ByLogin(String),
    ById(i64),
}

impl UserIdentity {
    /// Reads a user reference.
    pub fn try_from_str(s: &str) -> (r: Result<UserIdentity, CommandError>)
        ensures
            match user_reference(s@) {
                Ok(v) => r matches Ok(u) && u@ == v,
                Err(e) => r matches Err(f) && f == e,
            },
    {
        let len = s.unicode_len();
        if len > 0 && s.get_char(0) == '@' {
            let login = s.substring_char(1, len);
            assert(login@ =~= s@.drop_first());
            Ok(UserIdentity::Login(String::from_str(login)))
        } else {
            match parse_i64(s) {
                Some(id) => Ok(UserIdentity::Id(id)),
                None => Err(CommandError::BadUserReference),
            }
        }
    }

    /// The lookup that finds this user's record.
    pub fn find(&self) -> (r: UserQuery)
        ensures
            match self@ {
                UserIdentityView::Login(l) => r matches UserQuery::ByLogin(q) && q@ == l,
                UserIdentityView::Id(id) => r matches UserQuery::ById(q) && q == id,
            },
    {
        match self {
            UserIdentity::Login(l) => UserQuery::ByLogin(l.clone()),
            UserIdentity::Id(id) => UserQuery::ById(*id),
        }
    }

    /// The id of this user: given directly, or that of the record a lookup
    /// by login found, if it found one.
    pub fn uid(&self, found: Option<&GhUserRecord>) -> (r: Result<i64, CommandError>)
        ensures
            match self@ {
                UserIdentityView::Id(id) => r == Ok::<i64, CommandError>(id),
                UserIdentityView::Login(_) => match found {
                    Some(u) => r == Ok::<i64, CommandError>(u.id),
                    None => r == Err::<i64, CommandError>(CommandError::NoSuchUser),
                },
            },
    {
        match self {
            UserIdentity::Id(id) => Ok(*id),
            UserIdentity::Login(_) => match found {
                Some(u) => Ok(u.id),
                None => Err(CommandError::NoSuchUser),
            },
        }
    }
}

/// What a show command lists.
pub enum ShowTarget {
    /// The permissions of this user.
    User(UserIdentity),
    /// The users holding this permission.
    Permission(String),
}

/// What a permission command does.
pub enum PermissionAction {
    Grant { user: UserIdentity, permission: String },
    Revoke { user: UserIdentity, permission: String },
    Show(ShowTarget),
}

/// Decides what a show command lists: the user when one is named, else the
/// permission when one is named.
pub fn show_target(show: PermissionShow) -> (r: Result<ShowTarget, CommandError>)
    ensures
        match show.user {
            Some(u) => match user_reference(u@) {
                Ok(v) => r matches Ok(ShowTarget::User(w)) && w@ == v,
                Err(e) => r == Err::<ShowTarget, CommandError>(e),
            },
            None => match show.permission {
                Some(p) => r matches Ok(ShowTarget::Permission(q)) && q@ == p@,
                None => r == Err::<ShowTarget, CommandError>(CommandError::NothingToShow),
            },
        },
{
    match show.user {
        Some(u) => match UserIdentity::try_from_str(u.as_str()) {
            Ok(w) => Ok(ShowTarget::User(w)),
            Err(e) => Err(e),
        },
        None => match show.permission {
            Some(p) => Ok(ShowTarget::Permission(p)),
            None => Err(CommandError::NothingToShow),
        },
    }
}

/// Decides what a permission command does, reading its user reference.
pub fn plan_permission_command(cmd: PermissionSubCommand) -> (r: Result<
    PermissionAction,
    CommandError,
>)
    ensures
        match cmd {
            PermissionSubCommand::Grant(g) => match user_reference(g.user@) {
                Ok(v) => r matches Ok(PermissionAction::Grant { user, permission }) && user@ == v
                    && permission@ == g.permission@,
                Err(e) => r matches Err(f) && f == e,
            },
            PermissionSubCommand::Revoke(g) => match user_reference(g.user@) {
                Ok(v) => r matches Ok(PermissionAction::Revoke { user, permission }) && user@ == v
                    && permission@ == g.permission@,
                Err(e) => r matches Err(f) && f == e,
            },
            PermissionSubCommand::Show(s) => match s.user {
                Some(u) => match user_reference(u@) {
                    Ok(v) => r matches Ok(PermissionAction::Show(ShowTarget::User(w))) && w@ == v,
                    Err(e) => r matches Err(f) && f == e,
                },
                None => match s.permission {
                    Some(p) => r matches Ok(PermissionAction::Show(ShowTarget::Permission(q)))
                        && q@ == p@,
                    None => r matches Err(f) && f == CommandError::NothingToShow,
                },
            },
        },
{
    match cmd {
        PermissionSubCommand::Grant(g) => match UserIdentity::try_from_str(g.user.as_str()) {
            Ok(user) => Ok(PermissionAction::Grant { user, permission: g.permission }),
            Err(e) => Err(e),
        },
        PermissionSubCommand::Revoke(g) => match UserIdentity::try_from_str(g.user.as_str()) {
            Ok(user) => Ok(PermissionAction::Revoke { user, permission: g.permission }),
            Err(e) => Err(e),
        },
        PermissionSubCommand::Show(s) => match show_target(s) {
            Ok(t) => Ok(PermissionAction::Show(t)),
            Err(e) => Err(e),
        },
    }
}

/// The line a grant prints.
pub fn grant_report() -> (r: String)
    ensures
        r@ == "Permission granted!"@,
{
    String::from_str("Permission granted!")
}

/// The line a revoke prints, given how many rows it deleted.
pub fn revoke_report(count: usize) -> (r: String)
    ensures
        r@ == "Revoked "@ + decimal_digits(count as nat) + " permissions"@,
{
    let mut r = String::from_str("Revoked ");
    let n = format_u64(count as u64);
    r.append(n.as_str());
    r.append(" permissions");
    r
}

/// The lines that list a user's permissions.
pub open spec fn user_report(uid: i64, names: Seq<Seq<char>>) -> Seq<Seq<char>> {
    if names.len() == 0 {
        seq!["User "@ + decimal_text(uid as int) + " has no permissions"@]
    } else {
        seq!["Permissions for user "@ + decimal_text(uid as int)] + names.map_values(
            |n: Seq<char>| "  "@ + n,
        )
    }
}

/// The lines that list the holders of a permission.
pub open spec fn holders_report(name: Seq<char>, grants: Seq<(i64, Seq<char>)>) -> Seq<Seq<char>> {
    if grants.len() == 0 {
        seq!["No users have the permission "@ + name]
    } else {
        grants.map_values(
            |g: (i64, Seq<char>)| "User "@ + decimal_text(g.0 as int) + " has permission "@ + g.1,
        )
    }
}

/// The lines a show command prints for user `uid`, whose grant rows are
/// `perms`.
pub fn user_permissions_report(uid: i64, perms: &Vec<Permission>) -> (r: Vec<String>)
    ensures
        crate::permissions::strings_view(r@) == user_report(
            uid,
            crate::permissions::row_names(perms@),
        ),
{
    let id_text = format_i64(uid);
    let mut r: Vec<String> = Vec::new();
    if perms.len() == 0 {
        let mut line = String::from_str("User ");
        line.append(id_text.as_str());
        line.append(" has no permissions");
        r.push(line);
        assert(crate::permissions::strings_view(r@) =~= user_report(
            uid,
            crate::permissions::row_names(perms@),
        ));
        return r;
    }
    let mut head = String::from_str("Permissions for user ");
    head.append(id_text.as_str());
    r.push(head);
    let mut i: usize = 0;
    while i < perms.len()
        invariant
            0 <= i <= perms.len(),
            r@.len() == i + 1,
            r@[0]@ == "Permissions for user "@ + decimal_text(uid as int),
            forall|j: int| 0 <= j < i ==> (#[trigger] r@[j + 1])@ == "  "@ + perms@[j].name@,
        decreases perms.len() - i,
    {
        let mut line = String::from_str("  ");
        line.append(perms[i].name.as_str());
        r.push(line);
        i = i + 1;
    }
    let ghost expect = user_report(uid, crate::permissions::row_names(perms@));
    assert forall|j: int| 0 <= j < r@.len() implies crate::permissions::strings_view(r@)[j]
        == expect[j] by {
        if j > 0 {
            assert(r@[(j - 1) + 1] == r@[j]);
        }
    }
    assert(crate::permissions::strings_view(r@) =~= expect);
    r
}

/// The lines a show command prints for the permission `name`, whose grant
/// rows are `perms`.
pub fn permission_holders_report(name: &str, perms: &Vec<Permission>) -> (r: Vec<String>)
    ensures
        crate::permissions::strings_view(r@) == holders_report(
            name@,
            crate::permissions::grant_keys(perms@),
        ),
{
    let mut r: Vec<String> = Vec::new();
    if perms.len() == 0 {
        let mut line = String::from_str("No users have the permission ");
        line.append(name);
        r.push(line);
        assert(crate::permissions::strings_view(r@) =~= holders_report(
            name@,
            crate::permissions::grant_keys(perms@),
        ));
        return r;
    }
    let mut i: usize = 0;
    while i < perms.len()
        invariant
            0 <= i <= perms.len(),
            r@.len() == i,
            forall|j: int|
                0 <= j < i ==> (#[trigger] r@[j])@ == "User "@ + decimal_text(
                    perms@[j].gh_user_id as int,
                ) + " has permission "@ + perms@[j].name@,
        decreases perms.len() - i,
    {
        let mut line = String::from_str("User ");
        let id_text = format_i64(perms[i].gh_user_id);
        line.append(id_text.as_str());
        line.append(" has permission ");
        line.append(perms[i].name.as_str());
        r.push(line);
        i = i + 1;
    }
    assert(crate::permissions::strings_view(r@) =~= holders_report(
        name@,
        crate::permissions::grant_keys(perms@),
    ));
    r
}

} // verus!
