use udevgames::identity::{GhUserRecord, UpsertPlan};
use udevgames::models::ModelError;

fn record(id: i64, login: &str, avatar: &str, html: &str) -> GhUserRecord {
    GhUserRecord::new(id, login, avatar, html)
}

#[test]
fn upsert_inserts_when_absent() {
    match GhUserRecord::find_and_update(None, 42, "ed", "a", "b") {
        UpsertPlan::Insert(r) => {
            assert_eq!(r.id, 42);
            assert_eq!(r.login, "ed");
            assert_eq!(r.avatar_url, "a");
            assert_eq!(r.html_url, "b");
        }
        _ => panic!("expected an insert"),
    }
}

#[test]
fn upsert_twice_writes_once() {
    // the table after the first upsert holds what the insert wrote
    let stored = match GhUserRecord::find_and_update(None, 7, "kim", "av", "hp") {
        UpsertPlan::Insert(r) => r,
        _ => panic!("expected an insert"),
    };
    let second = GhUserRecord::find_and_update(Some(&stored), 7, "kim", "av", "hp");
    assert!(matches!(second, UpsertPlan::Unchanged));
}

#[test]
fn upsert_updates_when_a_field_differs() {
    let stored = record(3, "kim", "av", "hp");
    for (login, avatar, html) in [("kim2", "av", "hp"), ("kim", "av2", "hp"), ("kim", "av", "hp2")] {
        match GhUserRecord::find_and_update(Some(&stored), 3, login, avatar, html) {
            UpsertPlan::Update(r) => {
                assert_eq!(r.id, 3);
                assert_eq!(r.login, login);
                assert_eq!(r.avatar_url, avatar);
                assert_eq!(r.html_url, html);
            }
            _ => panic!("expected an update"),
        }
    }
}

#[test]
fn second_login_updates_only_the_login() {
    // first callback creates identity 42
    let first = match GhUserRecord::find_and_update(None, 42, "ed", "a", "b") {
        UpsertPlan::Insert(r) => r,
        _ => panic!("expected an insert"),
    };
    assert_eq!(first.id, 42);
    // second callback brings a new login
    match GhUserRecord::find_and_update(Some(&first), 42, "ed2", "a", "b") {
        UpsertPlan::Update(r) => {
            assert_eq!(r.id, 42);
            assert_eq!(r.login, "ed2");
            assert_eq!(r.avatar_url, first.avatar_url);
            assert_eq!(r.html_url, first.html_url);
        }
        _ => panic!("expected an update"),
    }
}

#[test]
fn upserted_reports_a_lost_write() {
    let r = GhUserRecord::upserted(Some(record(1, "a", "b", "c"))).unwrap();
    assert_eq!(r.login, "a");
    assert_eq!(GhUserRecord::upserted(None).unwrap_err(), ModelError::NotFound);
    let copy = r.duplicate();
    assert_eq!(copy.id, 1);
    assert_eq!(copy.html_url, "c");
}
