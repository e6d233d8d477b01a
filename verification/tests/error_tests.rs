use axum_todo::error::{AppError, FieldMessages};
use axum_todo::validation::{FieldErrors, ValidationIssue, ValidationReport};

fn s(x: &str) -> String {
    String::from(x)
}

#[test]
fn internal_errors_hide_their_cause() {
    let db = AppError::Database(s("connection reset")).into_response();
    assert_eq!(db.status, 500);
    assert_eq!(db.body.error, "An internal server erorr occured");
    assert_eq!(db.body.details, None);
    let cfg = AppError::Config(s("JWT_SECRET must be set in .env")).into_response();
    assert_eq!(cfg.status, 500);
    assert_eq!(cfg.body.error, "An internal server error occurred");
    let internal = AppError::InternalServerError(s("Access token generation failed!")).into_response();
    assert_eq!(internal.status, 500);
    assert_eq!(internal.body.error, "An internal server error occurred");
}

#[test]
fn client_errors_carry_their_message() {
    let unauthorized = AppError::Unauthorized(s("Unauthorized")).into_response();
    assert_eq!((unauthorized.status, unauthorized.body.error.as_str()), (401, "Unauthorized"));
    let missing = AppError::NotFound(s("Todo not found!")).into_response();
    assert_eq!((missing.status, missing.body.error.as_str()), (404, "Todo not found!"));
    let bad = AppError::BadRequest(s("Invalid Login credenditals")).into_response();
    assert_eq!((bad.status, bad.body.error.as_str()), (400, "Invalid Login credenditals"));
    let uuid = AppError::Uuid(s("invalid length")).into_response();
    assert_eq!((uuid.status, uuid.body.error.as_str()), (400, "Invalid ID format: invalid length"));
    assert_eq!(uuid.body.details, None);
}

#[test]
fn validation_errors_list_messages_per_field() {
    let report = ValidationReport {
        fields: vec![
            FieldErrors {
                field: s("email"),
                errors: vec![ValidationIssue { code: s("email"), message: Some(s("Please provide a valid email address")) }],
            },
            FieldErrors {
                field: s("password"),
                errors: vec![
                    ValidationIssue { code: s("length"), message: None },
                    ValidationIssue { code: s("custom"), message: Some(s("Too weak")) },
                ],
            },
        ],
    };
    let res = AppError::Validation(report).into_response();
    assert_eq!(res.status, 400);
    assert_eq!(res.body.error, "Validation failed");
    assert_eq!(
        res.body.details,
        Some(vec![
            FieldMessages { field: s("email"), messages: vec![s("Please provide a valid email address")] },
            FieldMessages { field: s("password"), messages: vec![s("length"), s("Too weak")] },
        ])
    );
}
