use udevgames::cli::{grant_report, permission_holders_report, revoke_report, user_permissions_report};
use udevgames::permissions::{GrantPlan, Permission};

fn row(id: i32, uid: i64, name: &str) -> Permission {
    Permission { id, gh_user_id: uid, name: name.to_string() }
}

#[test]
fn grant_inserts_when_absent() {
    match Permission::grant_permission(&vec![], 42, "admin") {
        GrantPlan::Insert { gh_user_id, name } => {
            assert_eq!(gh_user_id, 42);
            assert_eq!(name, "admin");
        }
        GrantPlan::AlreadyGranted => panic!("expected an insert"),
    }
}

#[test]
fn grant_twice_keeps_one_row() {
    let mut table: Vec<Permission> = vec![row(1, 42, "editor")];
    for _ in 0..2 {
        match Permission::grant_permission(&table, 42, "admin") {
            GrantPlan::Insert { gh_user_id, name } => {
                table.push(Permission { id: table.len() as i32 + 1, gh_user_id, name })
            }
            GrantPlan::AlreadyGranted => {}
        }
    }
    let rows: Vec<&Permission> =
        table.iter().filter(|p| p.gh_user_id == 42 && p.name == "admin").collect();
    assert_eq!(rows.len(), 1);
    let mine: Vec<Permission> = table.iter().filter(|p| p.gh_user_id == 42).cloned().collect();
    assert!(Permission::names(&mine).contains(&"admin".to_string()));
}

#[test]
fn grant_matches_identity_and_name_exactly() {
    let table = vec![row(1, 41, "admin"), row(2, 42, "Admin"), row(3, 42, "admin ")];
    assert!(matches!(Permission::grant_permission(&table, 42, "admin"), GrantPlan::Insert { .. }));
    assert!(matches!(
        Permission::grant_permission(&table, 41, "admin"),
        GrantPlan::AlreadyGranted
    ));
}

#[test]
fn names_keep_row_order() {
    let rows = vec![row(1, 9, "b"), row(2, 9, "a"), row(3, 9, "c")];
    assert_eq!(Permission::names(&rows), vec!["b", "a", "c"]);
    assert!(Permission::names(&vec![]).is_empty());
}

#[test]
fn command_reports() {
    assert_eq!(grant_report(), "Permission granted!");
    assert_eq!(revoke_report(0), "Revoked 0 permissions");
    assert_eq!(revoke_report(3), "Revoked 3 permissions");
    assert_eq!(user_permissions_report(42, &vec![]), vec!["User 42 has no permissions"]);
    assert_eq!(
        user_permissions_report(42, &vec![row(1, 42, "admin"), row(2, 42, "editor")]),
        vec!["Permissions for user 42", "  admin", "  editor"]
    );
    assert_eq!(
        permission_holders_report("admin", &vec![]),
        vec!["No users have the permission admin"]
    );
    assert_eq!(
        permission_holders_report("admin", &vec![row(1, 42, "admin"), row(5, -3, "admin")]),
        vec!["User 42 has permission admin", "User -3 has permission admin"]
    );
}
