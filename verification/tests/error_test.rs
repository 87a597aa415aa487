use circa_backend::error::AppError;

#[test]
fn test_internal_server_error_status() {
    let err = AppError::InternalServerError;
    assert_eq!(err.status_code(), 500);
}

#[test]
fn test_bad_request_status() {
    let err = AppError::BadRequest("invalid input".to_string());
    assert_eq!(err.status_code(), 400);
}

#[test]
fn test_not_found_status() {
    let err = AppError::NotFound("resource missing".to_string());
    assert_eq!(err.status_code(), 404);
}

#[test]
fn test_unauthorized_status() {
    let err = AppError::Unauthorized;
    assert_eq!(err.status_code(), 401);
}

#[test]
fn test_forbidden_status() {
    let err = AppError::Forbidden;
    assert_eq!(err.status_code(), 403);
}

#[test]
fn test_internal_server_error_display() {
    let err = AppError::InternalServerError;
    assert_eq!(err.message(), "Internal server error");
}

#[test]
fn test_bad_request_display() {
    let err = AppError::BadRequest("missing field".to_string());
    assert_eq!(err.message(), "Bad request: missing field");
}

#[test]
fn test_not_found_display() {
    let err = AppError::NotFound("User not found".to_string());
    assert_eq!(err.message(), "Not found: User not found");
}

#[test]
fn test_unauthorized_display() {
    let err = AppError::Unauthorized;
    assert_eq!(err.message(), "Unauthorized");
}

#[test]
fn test_forbidden_display() {
    let err = AppError::Forbidden;
    assert_eq!(err.message(), "Forbidden");
}
