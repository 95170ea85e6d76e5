//! The service's error type, its messages and the HTTP answer for each.
use vstd::prelude::*;
use crate::text::{push_str, string_of};

verus! {

/// Every way a request can fail.
///
/// `DatabaseError` carries the text of the database driver's error.
#[derive(Debug, Clone, PartialEq, Eq)]
pub enum AppError {
    InvalidCredentials,
    MissingToken,
    InvalidToken,
    Forbidden,
    NotFound(String),
    Conflict(String),
    ValidationError(String),
    BadRequest(String),
    DatabaseError(String),
    InternalServerError,
}

/// The result of a service operation.
pub type AppResult<T> = Result<T, AppError>;

/// The JSON body of an error answer: `{"error": .., "message": ..}`.
#[derive(Debug, Clone, PartialEq, Eq)]
pub struct ErrorResponse {
    pub error: String,
    pub message: String,
}

/// The human-readable text of an error.
pub open spec fn message_of(e: AppError) -> Seq<char> {
    match e {
        AppError::InvalidCredentials => "Invalid credentials"@,
        AppError::MissingToken => "Token not provided"@,
        AppError::InvalidToken => "Invalid or expired token"@,
        AppError::Forbidden => "You don't have permission to do this"@,
        AppError::NotFound(s) => "Resource not found: "@ + s@,
        AppError::Conflict(s) => "Resource already exists: "@ + s@,
        AppError::ValidationError(s) => "Validation failed: "@ + s@,
        AppError::BadRequest(s) => "Bad request: "@ + s@,
        AppError::DatabaseError(s) => "Database error: "@ + s@,
        AppError::InternalServerError => "Internal server error"@,
    }
}

/// The HTTP status code answered for an error.
pub open spec fn status_of(e: AppError) -> u16 {
    match e {
        AppError::InvalidCredentials => 401,
        AppError::MissingToken => 401,
        AppError::InvalidToken => 401,
        AppError::Forbidden => 403,
        AppError::NotFound(_) => 404,
        AppError::Conflict(_) => 409,
        AppError::ValidationError(_) => 422,
        AppError::BadRequest(_) => 400,
        AppError::DatabaseError(_) => 500,
        AppError::InternalServerError => 500,
    }
}

/// The machine-readable error code answered for an error.
pub open spec fn code_of(e: AppError) -> Seq<char> {
    match e {
        AppError::InvalidCredentials => "UNAUTHORIZED"@,
        AppError::MissingToken => "MISSING_TOKEN"@,
        AppError::InvalidToken => "INVALID_TOKEN"@,
        AppError::Forbidden => "FORBIDDEN"@,
        AppError::NotFound(_) => "NOT_FOUND"@,
        AppError::Conflict(_) => "CONFLICT"@,
        AppError::ValidationError(_) => "VALIDATION_ERROR"@,
        AppError::BadRequest(_) => "BAD_REQUEST"@,
        AppError::DatabaseError(_) => "INTERNAL_ERROR"@,
        AppError::InternalServerError => "INTERNAL_ERROR"@,
    }
}

/// Whether the error comes from the server itself rather than the request.
pub open spec fn is_internal(e: AppError) -> bool {
    e is DatabaseError || e is InternalServerError
}

/// The message that the client is shown: the error's text, except for
/// internal errors, whose details stay on the server.
pub open spec fn public_message_of(e: AppError) -> Seq<char> {
    if is_internal(e) {
        "An internal error occurred"@
    } else {
        message_of(e)
    }
}

fn prefixed(prefix: &str, s: &String) -> (r: String)
    ensures
        r@ == prefix@ + s@,
{
    let mut r = string_of(prefix);
    push_str(&mut r, s.as_str());
    r
}

impl AppError {
    /// The human-readable text of the error.
    pub fn message(&self) -> (r: String)
        ensures
            r@ == message_of(*self),
    {
        match self {
            AppError::InvalidCredentials => string_of("Invalid credentials"),
            AppError::MissingToken => string_of("Token not provided"),
            AppError::InvalidToken => string_of("Invalid or expired token"),
            AppError::Forbidden => string_of("You don't have permission to do this"),
            AppError::NotFound(s) => prefixed("Resource not found: ", s),
            AppError::Conflict(s) => prefixed("Resource already exists: ", s),
            AppError::ValidationError(s) => prefixed("Validation failed: ", s),
            AppError::BadRequest(s) => prefixed("Bad request: ", s),
            AppError::DatabaseError(s) => prefixed("Database error: ", s),
            AppError::InternalServerError => string_of("Internal server error"),
        }
    }

    /// The HTTP status code of the answer to this error.
    pub fn status(&self) -> (r: u16)
        ensures
            r == status_of(*self),
    {
        match self {
            AppError::InvalidCredentials => 401,
            AppError::MissingToken => 401,
            AppError::InvalidToken => 401,
            AppError::Forbidden => 403,
            AppError::NotFound(_) => 404,
            AppError::Conflict(_) => 409,
            AppError::ValidationError(_) => 422,
            AppError::BadRequest(_) => 400,
            AppError::DatabaseError(_) => 500,
            AppError::InternalServerError => 500,
        }
    }

    /// The status code and body of the HTTP answer to this error.
    pub fn into_response(&self) -> (r: (u16, ErrorResponse))
        ensures
            r.0 == status_of(*self),
            r.1.error@ == code_of(*self),
            r.1.message@ == public_message_of(*self),
    {
        let code = match self {
            AppError::InvalidCredentials => "UNAUTHORIZED",
            AppError::MissingToken => "MISSING_TOKEN",
            AppError::InvalidToken => "INVALID_TOKEN",
            AppError::Forbidden => "FORBIDDEN",
            AppError::NotFound(_) => "NOT_FOUND",
            AppError::Conflict(_) => "CONFLICT",
            AppError::ValidationError(_) => "VALIDATION_ERROR",
            AppError::BadRequest(_) => "BAD_REQUEST",
            AppError::DatabaseError(_) => "INTERNAL_ERROR",
            AppError::InternalServerError => "INTERNAL_ERROR",
        };
        let message = match self {
            AppError::DatabaseError(_) => string_of("An internal error occurred"),
            AppError::InternalServerError => string_of("An internal error occurred"),
            _ => self.message(),
        };
        (self.status(), ErrorResponse { error: string_of(code), message })
    }
}

/// The error for a user id that no row has.
pub fn user_not_found(id: u128) -> (r: AppError)
    ensures
        r matches AppError::NotFound(m) && m@ == "User with id "@ + crate::ids::uuid_hyphenated(id)
            + " not found"@,
{
    AppError::NotFound(crate::ids::user_not_found_message(id))
}

/// The error for an insert that the database refused: a unique-constraint
/// violation is a conflict, anything else a database error.
pub fn create_failure(unique_violation: bool, database_text: String) -> (r: AppError)
    ensures
        unique_violation ==> (r matches AppError::Conflict(m) && m@
            == "Email or username already exists"@),
        !unique_violation ==> r == AppError::DatabaseError(database_text),
{
    if unique_violation {
        AppError::Conflict(string_of("Email or username already exists"))
    } else {
        AppError::DatabaseError(database_text)
    }
}

} // verus!
