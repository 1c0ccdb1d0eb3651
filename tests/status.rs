use checklints::status::{Reason, Status, StatusStatus, Statuses};

fn fail(main: &str) -> Status {
    Status::fail(main.to_string(), None)
}

#[test]
fn exit_code_all_pass_is_zero() {
    let mut s = Statuses::new();
    s.insert("a.toml".to_string(), "one".to_string(), Status::pass());
    s.insert("a.toml".to_string(), "two".to_string(), Status::pass());
    s.insert("b.toml".to_string(), "three".to_string(), Status::pass());
    assert_eq!(s.exit_code(), 0);
}

#[test]
fn exit_code_one_failure_is_nonzero() {
    let mut s = Statuses::new();
    s.insert("a.toml".to_string(), "one".to_string(), Status::pass());
    s.insert("b.toml".to_string(), "two".to_string(), fail("broken"));
    s.insert("b.toml".to_string(), "three".to_string(), Status::pass());
    assert_ne!(s.exit_code(), 0);
}

#[test]
fn exit_code_empty_is_zero() {
    assert_eq!(Statuses::new().exit_code(), 0);
}

#[test]
fn exit_code_skip_is_nonzero() {
    let mut s = Statuses::new();
    s.insert("a.toml".to_string(), "one".to_string(), Status::skip("later".to_string(), None));
    assert_eq!(s.exit_code(), 1);
}

#[test]
fn insert_replaces_same_check() {
    let mut s = Statuses::new();
    s.insert("a.toml".to_string(), "one".to_string(), fail("broken"));
    s.insert("a.toml".to_string(), "one".to_string(), Status::pass());
    assert_eq!(s.lists.len(), 1);
    assert_eq!(s.lists[0].1.len(), 1);
    assert_eq!(s.exit_code(), 0);
}

#[test]
fn status_text() {
    assert_eq!(Status::pass().to_text(), "Pass");
    let f = Status::fail("Contents differ".to_string(), Some("diff".to_string()));
    assert_eq!(f.to_text(), "Failed (Contents differ: diff)");
    let s = Status::skip("Not implemented".to_string(), None);
    assert_eq!(s.to_text(), "Skipped (Not implemented)");
}

#[test]
fn mark_as_cached_keeps_outcome() {
    let mut s = fail("x");
    assert!(!s.is_cached());
    s.mark_as_cached();
    assert!(s.is_cached());
    assert!(s.is_failure());
    assert!(!s.is_success());
    assert!(!s.is_skipped());
    assert_eq!(
        s.status,
        StatusStatus::Fail { reason: Reason::new("x".to_string(), None) }
    );
}
