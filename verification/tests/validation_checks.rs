//! Checks of the create and update validators on concrete payloads.

use users_api::models::{CreateUser, NewUser, UpdateUser, UserChanges, ValidationErrors};

fn create_payload(name: &str, email: &str) -> CreateUser {
    CreateUser { name: name.to_string(), email: email.to_string() }
}

fn update_payload(name: Option<&str>, email: Option<&str>) -> UpdateUser {
    UpdateUser {
        name: name.map(|s| s.to_string()),
        email: email.map(|s| s.to_string()),
    }
}

#[test]
fn create_trims_name_and_lowercases_email() {
    let validated = NewUser::try_from(create_payload("  Ada  ", "ADA@EXAMPLE.COM")).unwrap();
    assert_eq!(validated.name, "Ada");
    assert_eq!(validated.email, "ada@example.com");
}

#[test]
fn create_reports_one_error_per_failing_field() {
    let errors = NewUser::try_from(create_payload("", "not-an-email")).unwrap_err();
    assert_eq!(errors.errors.len(), 2);
    assert_eq!(errors.errors[0].field, "name");
    assert_eq!(errors.errors[0].message, "must contain at least one character");
    assert_eq!(errors.errors[1].field, "email");
    assert_eq!(errors.errors[1].message, "invalid email format");
}

#[test]
fn create_rejects_whitespace_only_name() {
    let errors = NewUser::try_from(create_payload("   ", "test@example.com")).unwrap_err();
    assert_eq!(errors.errors.len(), 1);
    assert_eq!(errors.errors[0].field, "name");
}

#[test]
fn create_rejects_whitespace_only_email() {
    let errors = NewUser::try_from(create_payload("Test User", "   ")).unwrap_err();
    assert_eq!(errors.errors.len(), 1);
    assert_eq!(errors.errors[0].field, "email");
    assert_eq!(errors.errors[0].message, "must contain at least one character");
}

#[test]
fn create_rejects_name_over_100_characters() {
    let errors = NewUser::try_from(create_payload(&"a".repeat(101), "test@example.com"))
        .unwrap_err();
    assert_eq!(errors.errors.len(), 1);
    assert_eq!(errors.errors[0].field, "name");
    assert_eq!(errors.errors[0].message, "must be 100 characters or fewer");
}

#[test]
fn create_accepts_name_of_exactly_100_characters() {
    let validated = NewUser::try_from(create_payload(&"a".repeat(100), "test@example.com"))
        .unwrap();
    assert_eq!(validated.name.len(), 100);
}

#[test]
fn update_rejects_empty_payload_with_general_error() {
    let errors = UserChanges::try_from(update_payload(None, None)).unwrap_err();
    assert_eq!(errors.errors.len(), 1);
    assert_eq!(errors.errors[0].field, "general");
    assert_eq!(errors.errors[0].message, "must provide at least one field to update");
}

#[test]
fn update_treats_whitespace_only_fields_as_absent() {
    let errors = UserChanges::try_from(update_payload(Some("   "), Some(" \t "))).unwrap_err();
    assert_eq!(errors.errors.len(), 1);
    assert_eq!(errors.errors[0].field, "general");
}

#[test]
fn update_with_only_name_leaves_email_unset() {
    let changes = UserChanges::try_from(update_payload(Some("  New Name  "), None)).unwrap();
    assert_eq!(changes.name.as_deref(), Some("New Name"));
    assert!(changes.email.is_none());
}

#[test]
fn update_with_only_email_leaves_name_unset() {
    let changes = UserChanges::try_from(update_payload(None, Some("NEW@EXAMPLE.COM"))).unwrap();
    assert!(changes.name.is_none());
    assert_eq!(changes.email.as_deref(), Some("new@example.com"));
}

#[test]
fn update_rejects_invalid_email() {
    let errors = UserChanges::try_from(update_payload(None, Some("invalid-email"))).unwrap_err();
    assert_eq!(errors.errors.len(), 1);
    assert_eq!(errors.errors[0].field, "email");
    assert_eq!(errors.errors[0].message, "invalid email format");
}

#[test]
fn update_rejects_name_over_100_characters() {
    let errors = UserChanges::try_from(update_payload(Some(&"b".repeat(101)), None)).unwrap_err();
    assert_eq!(errors.errors.len(), 1);
    assert_eq!(errors.errors[0].field, "name");
}

#[test]
fn update_reports_both_fields_in_order_when_both_fail() {
    let errors =
        UserChanges::try_from(update_payload(Some(&"c".repeat(101)), Some("nope"))).unwrap_err();
    assert_eq!(errors.errors.len(), 2);
    assert_eq!(errors.errors[0].field, "name");
    assert_eq!(errors.errors[1].field, "email");
}

#[test]
fn errors_render_one_line_per_field() {
    let mut errors = ValidationErrors::new();
    errors.push("name", "must contain at least one character");
    errors.push("email", "invalid email format");
    assert_eq!(
        errors.to_text(),
        "name: must contain at least one character\nemail: invalid email format"
    );
}

#[test]
fn empty_errors_render_as_empty_text() {
    let errors = ValidationErrors::new();
    assert!(errors.is_empty());
    assert_eq!(errors.to_text(), "");
}
