use user_store::store::{Store, StoreError};
use user_store::user::User;

fn user(id: u32, name: &str, email: &str) -> User {
    User { id, name: name.to_string(), email: email.to_string() }
}

#[test]
fn new_store_is_empty() {
    let store = Store::new();
    assert_eq!(store.list().len(), 0);
}

#[test]
fn seeded_store_holds_john_doe() {
    let store = Store::seeded();
    let listed = store.list();
    assert_eq!(listed.len(), 1);
    assert_eq!(listed[0], user(1, "John Doe", "john.doe@example.com"));
}

#[test]
fn create_then_list_contains_exact_record() {
    let mut store = Store::new();
    let r = store.insert(user(7, "Ada", "ada@x.com"));
    assert_eq!(r, Ok(()));
    let listed = store.list();
    assert!(listed.contains(&user(7, "Ada", "ada@x.com")));
}

#[test]
fn duplicate_id_create_fails_and_leaves_store_unchanged() {
    let mut store = Store::new();
    assert_eq!(store.insert(user(5, "First", "first@x.com")), Ok(()));
    let before = store.list();
    let r = store.insert(user(5, "Second", "second@x.com"));
    assert_eq!(r, Err(StoreError::Conflict));
    let after = store.list();
    assert_eq!(before, after);
}

#[test]
fn replace_of_equal_record_succeeds_and_keeps_contents() {
    let mut store = Store::seeded();
    let r = store.replace(user(1, "John Doe", "john.doe@example.com"));
    assert_eq!(r, Ok(()));
    let listed = store.list();
    assert_eq!(listed.len(), 1);
    assert_eq!(listed[0], user(1, "John Doe", "john.doe@example.com"));
}

#[test]
fn replace_with_changed_field_fails_with_not_found() {
    let mut store = Store::seeded();
    let r = store.replace(user(1, "Jane Doe", "john.doe@example.com"));
    assert_eq!(r, Err(StoreError::NotFound));
    let listed = store.list();
    assert_eq!(listed.len(), 1);
    assert_eq!(listed[0], user(1, "John Doe", "john.doe@example.com"));
}

#[test]
fn distinct_id_creates_all_succeed_and_all_are_listed() {
    let mut store = Store::seeded();
    let records = [
        user(2, "A", "a@x.com"),
        user(3, "B", "b@x.com"),
        user(4, "C", "c@x.com"),
        user(5, "D", "d@x.com"),
    ];
    for r in &records {
        let outcome = store.insert(user(r.id, &r.name, &r.email));
        assert_eq!(outcome, Ok(()));
    }
    let listed = store.list();
    assert_eq!(listed.len(), 5);
    for r in &records {
        assert!(listed.contains(r));
    }
}
