use bearer_auth::authentication::{
    auth_middleware, resolve_credential, AuthError, AuthenticatedUser, RequestContext,
    UNAUTHORIZED,
};
use bearer_auth::registry::{AppState, User};
use bearer_auth::server::{handle_request, protected_data, reject, OK};

fn user(username: &str, api_key: &str) -> User {
    User { username: username.to_string(), api_key: api_key.to_string() }
}

fn alice_registry() -> AppState {
    AppState::build(&vec![user("alice", "key123")])
}

fn request(header: &str) -> RequestContext {
    RequestContext::new(Some(header.as_bytes().to_vec()))
}

#[test]
fn valid_bearer_key_gets_greeting_and_data() {
    let resp = handle_request(&alice_registry(), request("Bearer key123"));
    assert_eq!(resp.status, 200);
    let body = resp.body.unwrap();
    assert_eq!(body.message, "Hello, alice! Here is your protected data.");
    assert_eq!(body.data, vec![1, 2, 3, 4]);
}

#[test]
fn wrong_key_is_unauthorized() {
    let resp = handle_request(&alice_registry(), request("Bearer wrongkey"));
    assert_eq!(resp.status, 401);
    assert!(resp.body.is_none());
}

#[test]
fn missing_header_is_unauthorized() {
    let resp = handle_request(&alice_registry(), RequestContext::new(None));
    assert_eq!(resp.status, 401);
    assert!(resp.body.is_none());
}

#[test]
fn basic_scheme_is_unauthorized() {
    let resp = handle_request(&alice_registry(), request("Basic key123"));
    assert_eq!(resp.status, 401);
    assert!(resp.body.is_none());
}

#[test]
fn missing_header_reason_is_missing_credential() {
    let outcome = auth_middleware(&alice_registry(), RequestContext::new(None));
    assert_eq!(outcome.err(), Some(AuthError::MissingCredential));
}

#[test]
fn unreadable_header_counts_as_missing() {
    let raw = vec![b'B', b'e', b'a', b'r', b'e', b'r', b' ', 0xff, b'k'];
    let outcome = auth_middleware(&alice_registry(), RequestContext::new(Some(raw)));
    assert_eq!(outcome.err(), Some(AuthError::MissingCredential));
    let with_newline = b"Bearer key123\n".to_vec();
    let outcome = auth_middleware(&alice_registry(), RequestContext::new(Some(with_newline)));
    assert_eq!(outcome.err(), Some(AuthError::MissingCredential));
    let with_delete = vec![b'B', 127];
    let outcome = auth_middleware(&alice_registry(), RequestContext::new(Some(with_delete)));
    assert_eq!(outcome.err(), Some(AuthError::MissingCredential));
}

#[test]
fn wrong_scheme_reason_is_malformed_credential() {
    for header in ["Basic key123", "bearer key123", "Bearer", "Bearerkey123", " Bearer key123", ""] {
        let outcome = auth_middleware(&alice_registry(), request(header));
        assert_eq!(outcome.err(), Some(AuthError::MalformedCredential), "header {:?}", header);
    }
}

#[test]
fn empty_token_reason_is_malformed_credential() {
    for header in ["Bearer ", "Bearer    ", "Bearer \t "] {
        let outcome = auth_middleware(&alice_registry(), request(header));
        assert_eq!(outcome.err(), Some(AuthError::MalformedCredential), "header {:?}", header);
    }
}

#[test]
fn unknown_key_reason_is_invalid_credential() {
    for header in ["Bearer wrongkey", "Bearer key1234", "Bearer KEY123", "Bearer key 123"] {
        let outcome = auth_middleware(&alice_registry(), request(header));
        assert_eq!(outcome.err(), Some(AuthError::InvalidCredential), "header {:?}", header);
    }
}

#[test]
fn key_is_trimmed_before_lookup() {
    for header in ["Bearer  key123", "Bearer key123  ", "Bearer \t key123 \t"] {
        let next = auth_middleware(&alice_registry(), request(header)).ok().unwrap();
        assert_eq!(next.identity.as_deref(), Some("alice"));
    }
}

#[test]
fn success_binds_identity_and_keeps_header() {
    let next = auth_middleware(&alice_registry(), request("Bearer key123")).ok().unwrap();
    assert_eq!(next.identity.as_deref(), Some("alice"));
    assert_eq!(next.authorization, Some(b"Bearer key123".to_vec()));
}

#[test]
fn every_reason_has_status_401() {
    for reason in [
        AuthError::MissingCredential,
        AuthError::MalformedCredential,
        AuthError::InvalidCredential,
        AuthError::Unauthenticated,
    ] {
        assert_eq!(reason.status_code(), 401);
        assert_eq!(reason.status_code(), UNAUTHORIZED);
        let resp = reject(reason);
        assert_eq!(resp.status, 401);
        assert!(resp.body.is_none());
    }
    assert_eq!(OK, 200);
}

#[test]
fn log_lines_name_the_reason() {
    assert_eq!(AuthError::MissingCredential.log_line(), "Missing Authorization header");
    assert_eq!(AuthError::MalformedCredential.log_line(), "Malformed Authorization header");
    assert_eq!(AuthError::InvalidCredential.log_line(), "Invalid API key");
    assert_eq!(AuthError::Unauthenticated.log_line(), "No authenticated identity");
}

#[test]
fn resolve_credential_checks_emptiness_then_registry() {
    let state = alice_registry();
    assert_eq!(resolve_credential(&state, "key123"), Ok("alice".to_string()));
    assert_eq!(resolve_credential(&state, ""), Err(AuthError::MalformedCredential));
    assert_eq!(resolve_credential(&state, "alice"), Err(AuthError::InvalidCredential));
}

#[test]
fn empty_key_in_registry_is_still_malformed() {
    let state = AppState::build(&vec![user("ghost", "")]);
    let resp = handle_request(&state, request("Bearer "));
    assert_eq!(resp.status, 401);
    assert_eq!(resolve_credential(&state, ""), Err(AuthError::MalformedCredential));
}

#[test]
fn accessor_fails_closed_without_identity() {
    let fresh = RequestContext::new(Some(b"Bearer key123".to_vec()));
    assert!(fresh.identity.is_none());
    let identity = AuthenticatedUser::from_request_parts(&fresh);
    assert_eq!(identity.err(), Some(AuthError::Unauthenticated));
}

#[test]
fn accessor_returns_bound_identity() {
    let next = auth_middleware(&alice_registry(), request("Bearer key123")).ok().unwrap();
    let identity = AuthenticatedUser::from_request_parts(&next).ok().unwrap();
    assert_eq!(identity.0, "alice");
}

#[test]
fn greeting_contains_exactly_the_username() {
    let body = protected_data(&AuthenticatedUser("bob the builder".to_string()));
    assert_eq!(body.message, "Hello, bob the builder! Here is your protected data.");
    assert_eq!(body.data, vec![1, 2, 3, 4]);
    let body = protected_data(&AuthenticatedUser(String::new()));
    assert_eq!(body.message, "Hello, ! Here is your protected data.");
}

#[test]
fn present_key_maps_to_its_own_user() {
    let state = AppState::build(&vec![user("alice", "key123"), user("bob", "hunter2")]);
    let resp = handle_request(&state, request("Bearer hunter2"));
    assert_eq!(resp.status, 200);
    assert_eq!(resp.body.unwrap().message, "Hello, bob! Here is your protected data.");
    let resp = handle_request(&state, request("Bearer key123"));
    assert_eq!(resp.body.unwrap().message, "Hello, alice! Here is your protected data.");
}
