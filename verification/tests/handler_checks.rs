//! Checks of the request handlers over the in-memory table model, following
//! the service's HTTP-level behaviour: statuses, bodies, and what each call
//! does to the stored rows.

use users_api::handlers::{
    create_user, create_user_with, delete_user, get_user, list_users, merge_user, update_user,
    AppError, AppErrorKind,
};
use users_api::models::{CreateUser, UpdateUser, User, UserChanges};
use users_api::store::UserStore;

fn create_payload(name: &str, email: &str) -> CreateUser {
    CreateUser { name: name.to_string(), email: email.to_string() }
}

fn update_payload(name: Option<&str>, email: Option<&str>) -> UpdateUser {
    UpdateUser {
        name: name.map(|s| s.to_string()),
        email: email.map(|s| s.to_string()),
    }
}

fn must_create(store: &mut UserStore, name: &str, email: &str) -> User {
    create_user(store, create_payload(name, email)).unwrap()
}

fn status_of(err: AppError) -> u16 {
    err.into_response().status
}

#[test]
fn list_users_returns_empty_array_initially() {
    let store = UserStore::new();
    assert!(list_users(&store).is_empty());
}

#[test]
fn create_and_get_user() {
    let mut store = UserStore::new();
    let created = must_create(&mut store, "Ada Lovelace", "ada@example.com");
    assert_eq!(created.name, "Ada Lovelace");
    assert_eq!(created.email, "ada@example.com");

    let fetched = get_user(&store, created.id).unwrap();
    assert_eq!(fetched.id, created.id);
    assert_eq!(fetched.name, "Ada Lovelace");
    assert_eq!(fetched.email, "ada@example.com");
    assert_eq!(fetched.created_at, created.created_at);
}

#[test]
fn update_user_modifies_fields() {
    let mut store = UserStore::new();
    let created = must_create(&mut store, "Grace Hopper", "grace@example.com");

    let payload = update_payload(Some("Grace B. Hopper"), Some("grace.hopper@example.com"));
    let updated = update_user(&mut store, created.id, payload).unwrap();
    assert_eq!(updated.name, "Grace B. Hopper");
    assert_eq!(updated.email, "grace.hopper@example.com");

    let fetched = get_user(&store, created.id).unwrap();
    assert_eq!(fetched.name, "Grace B. Hopper");
    assert_eq!(fetched.email, "grace.hopper@example.com");
}

#[test]
fn delete_user_removes_row() {
    let mut store = UserStore::new();
    let created = must_create(&mut store, "Alan Turing", "alan@example.com");

    assert!(delete_user(&mut store, created.id).is_ok());
    let second = delete_user(&mut store, created.id).unwrap_err();
    assert_eq!(status_of(second), 404);
    assert!(list_users(&store).is_empty());
}

#[test]
fn create_user_with_invalid_email_returns_validation_error() {
    let mut store = UserStore::new();
    let err = create_user(&mut store, create_payload("Test User", "invalid-email")).unwrap_err();
    let response = err.into_response();
    assert_eq!(response.status, 422);
    assert_eq!(response.message, "invalid input data");
    let details = response.errors.unwrap();
    assert_eq!(details.len(), 1);
    assert_eq!(details[0].field, "email");
}

#[test]
fn create_user_with_empty_name_returns_validation_error() {
    let mut store = UserStore::new();
    let err = create_user(&mut store, create_payload("", "test@example.com")).unwrap_err();
    assert_eq!(status_of(err), 422);
    assert!(list_users(&store).is_empty());
}

#[test]
fn create_user_with_long_name_returns_validation_error() {
    let mut store = UserStore::new();
    let long_name = "a".repeat(101);
    let err = create_user(&mut store, create_payload(&long_name, "test@example.com"))
        .unwrap_err();
    assert_eq!(status_of(err), 422);
}

#[test]
fn get_nonexistent_user_returns_not_found() {
    let store = UserStore::new();
    let err = get_user(&store, 0x1234_5678_9abc_def0).unwrap_err();
    let response = err.into_response();
    assert_eq!(response.status, 404);
    assert_eq!(response.message, "resource not found");
    assert!(response.errors.is_none());
}

#[test]
fn update_nonexistent_user_returns_not_found() {
    let mut store = UserStore::new();
    let payload = update_payload(Some("Updated Name"), None);
    let err = update_user(&mut store, 42, payload).unwrap_err();
    assert_eq!(status_of(err), 404);
}

#[test]
fn delete_nonexistent_user_returns_not_found() {
    let mut store = UserStore::new();
    let err = delete_user(&mut store, 42).unwrap_err();
    assert_eq!(status_of(err), 404);
}

#[test]
fn update_user_with_empty_payload_returns_validation_error() {
    let mut store = UserStore::new();
    let created = must_create(&mut store, "Test User", "test@example.com");
    let err = update_user(&mut store, created.id, update_payload(None, None)).unwrap_err();
    let response = err.into_response();
    assert_eq!(response.status, 422);
    let details = response.errors.unwrap();
    assert_eq!(details.len(), 1);
    assert_eq!(details[0].field, "general");
}

#[test]
fn update_user_partially_updates_only_provided_fields() {
    let mut store = UserStore::new();
    let created = must_create(&mut store, "Original Name", "original@example.com");

    let updated =
        update_user(&mut store, created.id, update_payload(Some("Updated Name"), None)).unwrap();
    assert_eq!(updated.name, "Updated Name");
    assert_eq!(updated.email, "original@example.com");
    assert_eq!(updated.created_at, created.created_at);

    let fetched = get_user(&store, created.id).unwrap();
    assert_eq!(fetched.name, "Updated Name");
    assert_eq!(fetched.email, "original@example.com");
}

#[test]
fn update_user_with_invalid_email_returns_validation_error() {
    let mut store = UserStore::new();
    let created = must_create(&mut store, "Test User", "test@example.com");
    let err =
        update_user(&mut store, created.id, update_payload(None, Some("invalid-email")))
            .unwrap_err();
    assert_eq!(status_of(err), 422);

    let fetched = get_user(&store, created.id).unwrap();
    assert_eq!(fetched.email, "test@example.com");
}

#[test]
fn create_user_sets_created_at_timestamp() {
    let mut store = UserStore::new();
    let created = must_create(&mut store, "Test User", "test@example.com");
    assert!(created.created_at > 0);
    let fetched = get_user(&store, created.id).unwrap();
    assert_eq!(fetched.created_at, created.created_at);
}

#[test]
fn create_user_with_whitespace_only_name_returns_validation_error() {
    let mut store = UserStore::new();
    let err = create_user(&mut store, create_payload("   ", "test@example.com")).unwrap_err();
    match err.kind {
        AppErrorKind::Validation(errors) => {
            assert_eq!(errors.errors.len(), 1);
            assert_eq!(errors.errors[0].field, "name");
        },
        _ => panic!("expected a validation error"),
    }
}

#[test]
fn create_user_with_whitespace_only_email_returns_validation_error() {
    let mut store = UserStore::new();
    let err = create_user(&mut store, create_payload("Test User", "   ")).unwrap_err();
    match err.kind {
        AppErrorKind::Validation(errors) => {
            assert_eq!(errors.errors.len(), 1);
            assert_eq!(errors.errors[0].field, "email");
        },
        _ => panic!("expected a validation error"),
    }
}

#[test]
fn create_user_with_mixed_case_email_normalizes_to_lowercase() {
    let mut store = UserStore::new();
    let created = must_create(&mut store, "Test User", "TEST@EXAMPLE.COM");
    assert_eq!(created.email, "test@example.com");
    let fetched = get_user(&store, created.id).unwrap();
    assert_eq!(fetched.email, "test@example.com");
}

#[test]
fn create_user_with_whitespace_around_fields_trims_whitespace() {
    let mut store = UserStore::new();
    let created = must_create(&mut store, "  Test User  ", "  test@example.com  ");
    assert_eq!(created.name, "Test User");
    assert_eq!(created.email, "test@example.com");
}

#[test]
fn update_user_with_whitespace_only_fields_ignores_them() {
    let mut store = UserStore::new();
    let created = must_create(&mut store, "Original Name", "original@example.com");
    let err =
        update_user(&mut store, created.id, update_payload(Some("   "), Some(""))).unwrap_err();
    assert_eq!(status_of(err), 422);

    let fetched = get_user(&store, created.id).unwrap();
    assert_eq!(fetched.name, "Original Name");
    assert_eq!(fetched.email, "original@example.com");
}

#[test]
fn list_users_returns_users_in_creation_order() {
    let mut store = UserStore::new();
    let first = must_create(&mut store, "First User", "first@example.com");
    let second = must_create(&mut store, "Second User", "second@example.com");

    let users = list_users(&store);
    assert_eq!(users.len(), 2);
    assert_eq!(users[0].id, first.id);
    assert_eq!(users[0].name, "First User");
    assert_eq!(users[1].id, second.id);
    assert_eq!(users[1].name, "Second User");
    assert_ne!(users[0].id, users[1].id);
}

#[test]
fn create_user_with_maximum_valid_name_length_succeeds() {
    let mut store = UserStore::new();
    let name = "a".repeat(100);
    let created = must_create(&mut store, &name, "test@example.com");
    assert_eq!(created.name.len(), 100);
}

#[test]
fn create_user_with_various_valid_email_formats_succeeds() {
    let valid_emails = [
        "user@example.com",
        "user.name@example.com",
        "user+tag@example.co.uk",
        "user123@example-domain.org",
    ];
    for email in valid_emails {
        let mut store = UserStore::new();
        let result = create_user(&mut store, create_payload("Test User", email));
        assert!(result.is_ok(), "Failed for email: {}", email);
    }
}

#[test]
fn create_user_with_invalid_email_formats_returns_validation_error() {
    let invalid_emails = [
        "invalid-email",
        "@example.com",
        "user@",
        "user@.com",
        "user.example.com",
        "user@example",
        "user@@example.com",
    ];
    for email in invalid_emails {
        let mut store = UserStore::new();
        let result = create_user(&mut store, create_payload("Test User", email));
        assert!(result.is_err(), "Should fail for email: {}", email);
    }
}

#[test]
fn merge_user_replaces_present_fields_only() {
    let current = User {
        id: 7,
        name: "Old Name".to_string(),
        email: "old@example.com".to_string(),
        created_at: 99,
    };
    let changes = UserChanges { name: Some("New Name".to_string()), email: None };
    let merged = merge_user(current, changes);
    assert_eq!(merged.id, 7);
    assert_eq!(merged.name, "New Name");
    assert_eq!(merged.email, "old@example.com");
    assert_eq!(merged.created_at, 99);
}

#[test]
fn creating_under_a_taken_id_is_an_internal_error() {
    let mut store = UserStore::new();
    let first =
        create_user_with(&mut store, create_payload("First", "first@example.com"), 5, 123)
            .unwrap();
    assert_eq!(first.id, 5);
    assert_eq!(first.created_at, 123);

    let err =
        create_user_with(&mut store, create_payload("Second", "second@example.com"), 5, 124)
            .unwrap_err();
    assert_eq!(status_of(err), 500);
    assert_eq!(list_users(&store).len(), 1);
}

#[test]
fn internal_error_maps_to_500_without_detail() {
    let response = AppError::internal().into_response();
    assert_eq!(response.status, 500);
    assert_eq!(response.message, "an unexpected error occurred");
    assert!(response.errors.is_none());
}
