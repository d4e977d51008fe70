use bearer_auth::registry::User;
use bearer_auth::store::{add_user, list_users, remove_user};

fn names(users: &Vec<User>) -> Vec<(String, String)> {
    users.iter().map(|u| (u.username.clone(), u.api_key.clone())).collect()
}

fn pair(username: &str, api_key: &str) -> (String, String) {
    (username.to_string(), api_key.to_string())
}

#[test]
fn add_user_appends_new_name() {
    let mut users: Vec<User> = Vec::new();
    assert!(add_user(&mut users, "alice", "key123"));
    assert!(add_user(&mut users, "bob", "key123"));
    assert_eq!(names(&users), vec![pair("alice", "key123"), pair("bob", "key123")]);
}

#[test]
fn add_user_keeps_list_on_known_name() {
    let mut users: Vec<User> = Vec::new();
    assert!(add_user(&mut users, "alice", "key123"));
    assert!(!add_user(&mut users, "alice", "other"));
    assert_eq!(names(&users), vec![pair("alice", "key123")]);
}

#[test]
fn remove_user_drops_every_match() {
    let mut users = vec![
        User { username: "alice".to_string(), api_key: "a".to_string() },
        User { username: "bob".to_string(), api_key: "b".to_string() },
        User { username: "alice".to_string(), api_key: "c".to_string() },
        User { username: "carol".to_string(), api_key: "d".to_string() },
    ];
    assert!(remove_user(&mut users, "alice"));
    assert_eq!(names(&users), vec![pair("bob", "b"), pair("carol", "d")]);
}

#[test]
fn remove_user_reports_unknown_name() {
    let mut users = vec![User { username: "alice".to_string(), api_key: "a".to_string() }];
    assert!(!remove_user(&mut users, "bob"));
    assert_eq!(names(&users), vec![pair("alice", "a")]);
    let mut none: Vec<User> = Vec::new();
    assert!(!remove_user(&mut none, "bob"));
    assert!(none.is_empty());
}

#[test]
fn list_users_of_empty_store() {
    assert_eq!(list_users(&Vec::new()), vec!["No users found.".to_string()]);
}

#[test]
fn list_users_prints_heading_and_lines() {
    let users = vec![
        User { username: "alice".to_string(), api_key: "key123".to_string() },
        User { username: "bob".to_string(), api_key: "hunter2".to_string() },
    ];
    assert_eq!(
        list_users(&users),
        vec![
            "Current users:".to_string(),
            "Username: alice, API Key: key123".to_string(),
            "Username: bob, API Key: hunter2".to_string(),
        ]
    );
}
