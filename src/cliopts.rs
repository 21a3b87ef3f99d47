//! The command line's shape: which subcommand was asked for and its
//! arguments. The application parses arguments into these.
use vstd::prelude::*;

verus! {

/// The parsed command line.
pub struct Opts {
    pub subcmd: SubCommand,
}

/// The subcommands of the program.
pub enum SubCommand {
    Migrate(Migrate),
    Serve(Serve),
    Permission(Permission),
}

/// Migrates the database to the current schema.
pub struct Migrate {}

/// Starts the web site.
pub struct Serve {}

/// Grant, revoke, and show permissions given to users.
pub struct Permission {
    pub subcmd: PermissionSubCommand,
}

/// The permission subcommands.
pub enum PermissionSubCommand {
    Grant(PermissionGrant),
    Revoke(PermissionRevoke),
    Show(PermissionShow),
}

/// Grants a permission to a user.
pub struct PermissionGrant {
    /// The user, either by @login or numeric id.
    pub user: String,
    /// The permission to grant.
    pub permission: String,
}

/// Revokes a permission from a user.
pub struct PermissionRevoke {
    /// The user, either by @login or numeric id.
    pub user: String,
    /// The permission to revoke.
    pub permission: String,
}

/// Shows the permissions of a user, or the users with a permission.
pub struct PermissionShow {
    /// Show all permissions of this user, either by @login or numeric id.
    pub user: Option<String>,
    /// Show all users with this permission.
    pub permission: Option<String>,
}

} // verus!
