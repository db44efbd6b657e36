use fullstack_app::errors::AppError;

#[test]
fn status_codes_follow_error_kinds() {
    assert_eq!(AppError::Internal("x".to_string()).status_code(), 500);
    assert_eq!(AppError::Unauthorized("x".to_string()).status_code(), 401);
    assert_eq!(AppError::Validation("x".to_string()).status_code(), 422);
    assert_eq!(AppError::Conflict("x".to_string()).status_code(), 409);
    assert_eq!(AppError::BadRequest("x".to_string()).status_code(), 400);
    assert_eq!(AppError::NotFound("x".to_string()).status_code(), 404);
}

#[test]
fn message_is_carried() {
    assert_eq!(AppError::Conflict("Email already registered".to_string()).message(), "Email already registered");
}

#[test]
fn internal_details_stay_out_of_public_message() {
    let e = AppError::Internal("UNIQUE constraint failed: users.email".to_string());
    assert_eq!(e.public_message(), "Internal error");
    assert_eq!(e.message(), "UNIQUE constraint failed: users.email");
    assert_eq!(AppError::Unauthorized("Invalid credentials".to_string()).public_message(), "Invalid credentials");
    assert_eq!(AppError::Validation("email: Validation error: email".to_string()).public_message(), "email: Validation error: email");
}
