use bearer_auth::registry::{AppState, User};

fn record(username: &str, api_key: &str) -> User {
    User { username: username.to_string(), api_key: api_key.to_string() }
}

#[test]
fn lookup_finds_built_records() {
    let state = AppState::build(&vec![record("alice", "key123"), record("bob", "hunter2")]);
    assert_eq!(state.lookup("key123").map(String::as_str), Some("alice"));
    assert_eq!(state.lookup("hunter2").map(String::as_str), Some("bob"));
    assert_eq!(state.lookup("alice"), None);
    assert_eq!(state.lookup(""), None);
}

#[test]
fn empty_store_builds_empty_registry() {
    let state = AppState::build(&Vec::new());
    assert_eq!(state.lookup("key123"), None);
    assert!(state.users.is_empty());
}

#[test]
fn later_record_wins_on_shared_key() {
    let state = AppState::build(&vec![
        record("alice", "shared"),
        record("bob", "other"),
        record("carol", "shared"),
    ]);
    assert_eq!(state.lookup("shared").map(String::as_str), Some("carol"));
    assert_eq!(state.lookup("other").map(String::as_str), Some("bob"));
    assert_eq!(state.users.len(), 2);
}

#[test]
fn cloned_state_shares_the_registry() {
    let state = AppState::build(&vec![record("alice", "key123")]);
    let copy = state.clone();
    assert_eq!(copy.lookup("key123").map(String::as_str), Some("alice"));
    assert_eq!(state.lookup("key123").map(String::as_str), Some("alice"));
}
