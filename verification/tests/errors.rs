use booking_api::errors::{AppError, ErrorBody, FieldMessages};
use booking_api::models::DbError;

fn db_error() -> DbError {
    DbError {
        description: "error returned from database: secret details".to_string(),
        database_message: Some("secret details".to_string()),
        unique_violation: false,
    }
}

fn message_of(body: ErrorBody) -> String {
    match body {
        ErrorBody::Error(m) => m,
        ErrorBody::Errors(_) => panic!("expected a message"),
    }
}

#[test]
fn error_statuses() {
    assert_eq!(AppError::NotFound("x".into()).into_response().status, 404);
    assert_eq!(AppError::Conflict("x".into()).into_response().status, 409);
    assert_eq!(AppError::BadRequest("x".into()).into_response().status, 400);
    assert_eq!(AppError::Unauthorized("x".into()).into_response().status, 401);
    assert_eq!(AppError::InternalServerError("x".into()).into_response().status, 500);
    assert_eq!(AppError::DatabaseError(db_error()).into_response().status, 500);
    assert_eq!(AppError::ValidationError(vec![]).into_response().status, 422);
}

#[test]
fn error_messages_pass_through() {
    let r = AppError::Conflict("This room is not free".into()).into_response();
    assert_eq!(message_of(r.body), "This room is not free");
}

#[test]
fn database_errors_hide_details() {
    let r = AppError::from(db_error()).into_response();
    assert_eq!(r.status, 500);
    assert_eq!(message_of(r.body), "Internal Server Error");
}

#[test]
fn validation_errors_list_fields() {
    let fields = vec![FieldMessages {
        field: "username".into(),
        messages: vec!["Username is too short".into()],
    }];
    let r = AppError::ValidationError(fields).into_response();
    match r.body {
        ErrorBody::Errors(f) => {
            assert_eq!(f.len(), 1);
            assert_eq!(f[0].field, "username");
            assert_eq!(f[0].messages, vec!["Username is too short".to_string()]);
        }
        ErrorBody::Error(_) => panic!("expected field errors"),
    }
}
