use axum_server::errors::{create_failure, user_not_found, AppError};

fn s(x: &str) -> String {
    x.to_string()
}

#[test]
fn messages_follow_the_error_kinds() {
    assert_eq!(AppError::InvalidCredentials.message(), "Invalid credentials");
    assert_eq!(AppError::MissingToken.message(), "Token not provided");
    assert_eq!(AppError::InvalidToken.message(), "Invalid or expired token");
    assert_eq!(AppError::Forbidden.message(), "You don't have permission to do this");
    assert_eq!(AppError::NotFound(s("user")).message(), "Resource not found: user");
    assert_eq!(AppError::Conflict(s("email")).message(), "Resource already exists: email");
    assert_eq!(AppError::ValidationError(s("email: invalid")).message(), "Validation failed: email: invalid");
    assert_eq!(AppError::BadRequest(s("oops")).message(), "Bad request: oops");
    assert_eq!(AppError::DatabaseError(s("pool timed out")).message(), "Database error: pool timed out");
    assert_eq!(AppError::InternalServerError.message(), "Internal server error");
}

#[test]
fn every_error_has_its_status_and_code() {
    let cases = [
        (AppError::InvalidCredentials, 401, "UNAUTHORIZED"),
        (AppError::MissingToken, 401, "MISSING_TOKEN"),
        (AppError::InvalidToken, 401, "INVALID_TOKEN"),
        (AppError::Forbidden, 403, "FORBIDDEN"),
        (AppError::NotFound(s("x")), 404, "NOT_FOUND"),
        (AppError::Conflict(s("x")), 409, "CONFLICT"),
        (AppError::ValidationError(s("x")), 422, "VALIDATION_ERROR"),
        (AppError::BadRequest(s("x")), 400, "BAD_REQUEST"),
        (AppError::DatabaseError(s("x")), 500, "INTERNAL_ERROR"),
        (AppError::InternalServerError, 500, "INTERNAL_ERROR"),
    ];
    for (e, status, code) in cases {
        let (st, body) = e.into_response();
        assert_eq!(st, status);
        assert_eq!(e.status(), status);
        assert_eq!(body.error, code);
    }
}

#[test]
fn client_errors_show_their_message() {
    let (_, body) = AppError::Conflict(s("Email already registered")).into_response();
    assert_eq!(body.message, "Resource already exists: Email already registered");
    let (_, body) = AppError::MissingToken.into_response();
    assert_eq!(body.message, "Token not provided");
}

#[test]
fn internal_errors_hide_their_details() {
    let (_, body) = AppError::DatabaseError(s("relation \"users\" does not exist")).into_response();
    assert_eq!(body.message, "An internal error occurred");
    let (_, body) = AppError::InternalServerError.into_response();
    assert_eq!(body.message, "An internal error occurred");
}

#[test]
fn missing_user_error_names_the_id() {
    let id = 0x550e8400_e29b_41d4_a716_446655440000u128;
    assert_eq!(
        user_not_found(id),
        AppError::NotFound(s("User with id 550e8400-e29b-41d4-a716-446655440000 not found"))
    );
}

#[test]
fn refused_inserts_are_conflicts_or_database_errors() {
    assert_eq!(create_failure(true, s("duplicate key")), AppError::Conflict(s("Email or username already exists")));
    assert_eq!(create_failure(false, s("connection reset")), AppError::DatabaseError(s("connection reset")));
}
