use udevgames::cli::{
    plan_permission_command, show_target, CommandError, PermissionAction, ShowTarget, UserIdentity,
    UserQuery,
};
use udevgames::cliopts::{PermissionGrant, PermissionRevoke, PermissionShow, PermissionSubCommand};
use udevgames::identity::GhUserRecord;

#[test]
fn user_references() {
    match UserIdentity::try_from_str("@ed").ok().unwrap() {
        UserIdentity::Login(l) => assert_eq!(l, "ed"),
        UserIdentity::Id(_) => panic!("expected a login"),
    }
    match UserIdentity::try_from_str("42").ok().unwrap() {
        UserIdentity::Id(id) => assert_eq!(id, 42),
        UserIdentity::Login(_) => panic!("expected an id"),
    }
    match UserIdentity::try_from_str("@").ok().unwrap() {
        UserIdentity::Login(l) => assert_eq!(l, ""),
        UserIdentity::Id(_) => panic!("expected a login"),
    }
    assert_eq!(UserIdentity::try_from_str("ed").err(), Some(CommandError::BadUserReference));
}

#[test]
fn user_ids() {
    let by_id = UserIdentity::Id(5);
    assert_eq!(by_id.uid(None), Ok(5));
    assert!(matches!(by_id.find(), UserQuery::ById(5)));
    let by_login = UserIdentity::Login("ed".to_string());
    match by_login.find() {
        UserQuery::ByLogin(l) => assert_eq!(l, "ed"),
        UserQuery::ById(_) => panic!("expected a login lookup"),
    }
    let found = GhUserRecord::new(77, "ed", "a", "b");
    assert_eq!(by_login.uid(Some(&found)), Ok(77));
    assert_eq!(by_login.uid(None), Err(CommandError::NoSuchUser));
}

#[test]
fn show_targets() {
    let both = PermissionShow { user: Some("3".to_string()), permission: Some("admin".to_string()) };
    assert!(matches!(show_target(both), Ok(ShowTarget::User(UserIdentity::Id(3)))));
    let perm = PermissionShow { user: None, permission: Some("admin".to_string()) };
    match show_target(perm) {
        Ok(ShowTarget::Permission(p)) => assert_eq!(p, "admin"),
        _ => panic!("expected a permission"),
    }
    let none = PermissionShow { user: None, permission: None };
    assert_eq!(show_target(none).err(), Some(CommandError::NothingToShow));
}

#[test]
fn permission_commands() {
    let grant = PermissionSubCommand::Grant(PermissionGrant {
        user: "@ed".to_string(),
        permission: "admin".to_string(),
    });
    match plan_permission_command(grant) {
        Ok(PermissionAction::Grant { user: UserIdentity::Login(l), permission }) => {
            assert_eq!(l, "ed");
            assert_eq!(permission, "admin");
        }
        _ => panic!("expected a grant"),
    }
    let revoke = PermissionSubCommand::Revoke(PermissionRevoke {
        user: "12".to_string(),
        permission: "editor".to_string(),
    });
    match plan_permission_command(revoke) {
        Ok(PermissionAction::Revoke { user: UserIdentity::Id(12), permission }) => {
            assert_eq!(permission, "editor")
        }
        _ => panic!("expected a revoke"),
    }
    let bad = PermissionSubCommand::Grant(PermissionGrant {
        user: "ed".to_string(),
        permission: "admin".to_string(),
    });
    assert_eq!(plan_permission_command(bad).err(), Some(CommandError::BadUserReference));
    let empty = PermissionSubCommand::Show(PermissionShow { user: None, permission: None });
    assert_eq!(plan_permission_command(empty).err(), Some(CommandError::NothingToShow));
}
