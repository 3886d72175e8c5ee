use retentive_lender::ledger::render_names;
use retentive_lender::{AccessKind, AccessState, Ledger};

#[test]
fn new_ledger_is_empty_and_free() {
    let l = Ledger::new();
    assert_eq!(l.len(), 0);
    assert_eq!(l.access(), AccessState::Free);
    assert!(l.borrowers().is_empty());
}

#[test]
fn shared_requests_append_in_order() {
    let mut l = Ledger::new();
    assert!(l.acquire(AccessKind::Shared, "b1").is_ok());
    assert!(l.acquire(AccessKind::Shared, "b2").is_ok());
    assert_eq!(l.access(), AccessState::Shared);
    assert_eq!(l.borrowers(), vec![String::from("b1"), String::from("b2")]);
}

#[test]
fn exclusive_request_refused_while_shared() {
    let mut l = Ledger::new();
    l.acquire(AccessKind::Shared, "b1").unwrap();
    let err = l.acquire(AccessKind::Exclusive, "b2").unwrap_err();
    assert_eq!(
        err,
        "Failed to borrow mutable reference. Currently borrowed by: [\"b1\"]"
    );
    assert_eq!(l.borrowers(), vec![String::from("b1")]);
    assert_eq!(l.access(), AccessState::Shared);
}

#[test]
fn shared_request_refused_while_exclusive() {
    let mut l = Ledger::new();
    l.acquire(AccessKind::Exclusive, "w").unwrap();
    assert_eq!(l.access(), AccessState::Exclusive);
    let err = l.acquire(AccessKind::Shared, "r").unwrap_err();
    assert_eq!(
        err,
        "Failed to borrow immutable reference. Currently borrowed by: [\"w\"]"
    );
    let err = l.acquire(AccessKind::Exclusive, "w2").unwrap_err();
    assert_eq!(
        err,
        "Failed to borrow mutable reference. Currently borrowed by: [\"w\"]"
    );
    assert_eq!(l.len(), 1);
}

#[test]
fn release_removes_the_first_match_only() {
    let mut l = Ledger::new();
    l.acquire(AccessKind::Shared, "a").unwrap();
    l.acquire(AccessKind::Shared, "b").unwrap();
    l.acquire(AccessKind::Shared, "a").unwrap();
    assert!(l.release(&String::from("a")));
    assert_eq!(l.borrowers(), vec![String::from("b"), String::from("a")]);
    assert_eq!(l.access(), AccessState::Shared);
}

#[test]
fn release_of_an_unknown_name_changes_nothing() {
    let mut l = Ledger::new();
    l.acquire(AccessKind::Shared, "a").unwrap();
    assert!(!l.release(&String::from("z")));
    assert_eq!(l.borrowers(), vec![String::from("a")]);
}

#[test]
fn releasing_everything_frees_the_value() {
    let mut l = Ledger::new();
    l.acquire(AccessKind::Shared, "a").unwrap();
    l.acquire(AccessKind::Shared, "b").unwrap();
    assert!(l.release(&String::from("a")));
    assert_eq!(l.len(), 1);
    assert!(l.release(&String::from("b")));
    assert_eq!(l.len(), 0);
    assert_eq!(l.access(), AccessState::Free);
    assert!(l.acquire(AccessKind::Exclusive, "w").is_ok());
    assert!(l.release(&String::from("w")));
    assert_eq!(l.access(), AccessState::Free);
}

#[test]
fn denial_lists_names_in_order() {
    let mut l = Ledger::new();
    l.acquire(AccessKind::Shared, "b1").unwrap();
    l.acquire(AccessKind::Shared, "b2").unwrap();
    assert_eq!(
        l.denial(AccessKind::Exclusive),
        "Failed to borrow mutable reference. Currently borrowed by: [\"b1\", \"b2\"]"
    );
    assert_eq!(
        l.denial(AccessKind::Shared),
        "Failed to borrow immutable reference. Currently borrowed by: [\"b1\", \"b2\"]"
    );
}

#[test]
fn render_names_quotes_and_escapes() {
    assert_eq!(render_names(&vec![]), "[]");
    assert_eq!(render_names(&vec![String::from("b1")]), "[\"b1\"]");
    assert_eq!(
        render_names(&vec![String::from("a\"b"), String::from("c\\d")]),
        "[\"a\\\"b\", \"c\\\\d\"]"
    );
}
