use caliber::error::{ApiError, ErrorCode};

#[test]
fn test_error_code_status_mapping() {
    assert_eq!(ErrorCode::Unauthorized.status_code(), 401);
    assert_eq!(ErrorCode::Forbidden.status_code(), 403);
    assert_eq!(ErrorCode::ValidationFailed.status_code(), 400);
    assert_eq!(ErrorCode::EntityNotFound.status_code(), 404);
    assert_eq!(ErrorCode::LockConflict.status_code(), 409);
    assert_eq!(ErrorCode::InternalError.status_code(), 500);
    assert_eq!(ErrorCode::ServiceUnavailable.status_code(), 503);
    assert_eq!(ErrorCode::Timeout.status_code(), 504);
}

#[test]
fn test_api_error_constructors() {
    let err = ApiError::unauthorized("Invalid credentials");
    assert_eq!(err.code, ErrorCode::Unauthorized);
    assert_eq!(err.message, "Invalid credentials");
    assert_eq!(err.status_code(), 401);
    let err = ApiError::entity_not_found("Trajectory", "123");
    assert_eq!(err.code, ErrorCode::EntityNotFound);
    assert!(err.message.contains("Trajectory"));
    assert!(err.message.contains("123"));
    let err = ApiError::missing_field("name");
    assert_eq!(err.code, ErrorCode::MissingField);
    assert!(err.message.contains("name"));
}

#[test]
fn test_api_error_with_details() {
    let details = serde_json::Value::String("must be valid email address".to_string());
    let err = ApiError::validation_failed("Invalid email").with_details(details.clone());
    assert_eq!(err.code, ErrorCode::ValidationFailed);
    assert_eq!(err.details, Some(details));
}

#[test]
fn test_error_display() {
    let err = ApiError::database_error("Connection failed");
    let display = err.display_text();
    assert!(display.contains("DatabaseError"));
    assert!(display.contains("Connection failed"));
}

#[test]
fn default_messages_and_rate_limits() {
    assert_eq!(ApiError::token_expired().message, ErrorCode::TokenExpired.default_message());
    assert_eq!(ApiError::too_many_requests(None).message, "Rate limit exceeded");
    assert_eq!(ApiError::too_many_requests(Some(3)).status_code(), 429);
}
