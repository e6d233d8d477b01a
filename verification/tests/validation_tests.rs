use axum_todo::modules::auth::dto::LoginUserDto;
use axum_todo::modules::category::dto::{CategoryCreateDto, CategoryUpdateDto};
use axum_todo::modules::todo::dto::{TodoCreateDto, TodoUpdateDto};
use axum_todo::modules::user::dto::{UserCreateDto, UserUpdateDto};
use axum_todo::validation::{has_min_length, is_valid_email, FieldErrors, ValidationIssue};

fn s(x: &str) -> String {
    String::from(x)
}

fn broken(field: &str, code: &str, message: &str) -> FieldErrors {
    FieldErrors { field: s(field), errors: vec![ValidationIssue { code: s(code), message: Some(s(message)) }] }
}

#[test]
fn length_counts_characters() {
    assert!(has_min_length("", 0));
    assert!(!has_min_length("", 1));
    assert!(has_min_length("ü", 1));
    assert!(!has_min_length("üüüüüüü", 8));
    assert!(has_min_length("üüüüüüüü", 8));
}

#[test]
fn email_rule_follows_the_validator_crate() {
    assert!(is_valid_email("ada@example.com"));
    assert!(!is_valid_email("ada.example.com"));
    assert!(!is_valid_email(""));
    assert!(!is_valid_email("ada@"));
}

#[test]
fn valid_user_passes() {
    let dto = UserCreateDto { name: s("Ada"), email: s("ada@example.com"), password: s("12345678") };
    assert_eq!(dto.validate(), Ok(()));
}

#[test]
fn invalid_user_reports_every_broken_field_in_order() {
    let dto = UserCreateDto { name: s(""), email: s("nope"), password: s("1234567") };
    let report = dto.validate().unwrap_err();
    assert_eq!(
        report.fields,
        vec![
            broken("name", "length", "Name is required!"),
            broken("email", "email", "Please provide a valid email address"),
            broken("password", "length", "Password must be at least 8 characters long"),
        ]
    );
}

#[test]
fn invalid_email_alone_is_reported_alone() {
    let dto = UserCreateDto { name: s("Ada"), email: s("ada at example"), password: s("long enough") };
    let report = dto.validate().unwrap_err();
    assert_eq!(report.fields, vec![broken("email", "email", "Please provide a valid email address")]);
}

#[test]
fn updates_check_only_given_fields() {
    assert_eq!(UserUpdateDto { name: None }.validate(), Ok(()));
    assert_eq!(UserUpdateDto { name: Some(s("Bo")) }.validate(), Ok(()));
    assert_eq!(
        UserUpdateDto { name: Some(s("")) }.validate().unwrap_err().fields,
        vec![broken("name", "length", "Name is required!")]
    );
    assert_eq!(CategoryUpdateDto { name: None }.validate(), Ok(()));
    assert_eq!(
        CategoryUpdateDto { name: Some(s("")) }.validate().unwrap_err().fields,
        vec![broken("name", "length", "This field is required!")]
    );
    assert_eq!(TodoUpdateDto { title: None, completed: Some(true) }.validate(), Ok(()));
    assert_eq!(
        TodoUpdateDto { title: Some(s("")), completed: None }.validate().unwrap_err().fields,
        vec![broken("title", "length", "title is required!")]
    );
}

#[test]
fn category_and_todo_bodies_need_a_name_or_title() {
    assert_eq!(CategoryCreateDto { name: s("Work") }.validate(), Ok(()));
    assert_eq!(
        CategoryCreateDto { name: s("") }.validate().unwrap_err().fields,
        vec![broken("name", "length", "This field is required!")]
    );
    assert_eq!(TodoCreateDto { title: s("Buy milk"), completed: None }.validate(), Ok(()));
    assert_eq!(
        TodoCreateDto { title: s(""), completed: Some(false) }.validate().unwrap_err().fields,
        vec![broken("title", "length", "title is required!")]
    );
}

#[test]
fn login_body_needs_an_address_and_a_password() {
    assert_eq!(LoginUserDto { email: s("ada@example.com"), password: s("password1") }.validate(), Ok(()));
    assert_eq!(
        LoginUserDto { email: s("ada"), password: s("short") }.validate().unwrap_err().fields,
        vec![
            broken("email", "email", "Please provide a valid email address"),
            broken("password", "length", "Password must be at least 8 characters long"),
        ]
    );
}
