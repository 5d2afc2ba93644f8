//! The errors that the gateway reports to its clients.

use crate::text::{join2, owned};
use vstd::prelude::*;

verus! {

/// An error of the gateway, with the detail as text.
#[derive(Debug, Clone)]
pub enum AppError {
    /// The settings could not be read.
    ConfigError(String),
    /// The database failed.
    DatabaseError(String),
    /// The input is invalid.
    ValidationError(String),
    /// What was asked for does not exist.
    NotFoundError(String),
    /// The caller is not who they claim to be.
    AuthError(String),
    /// The caller may not do this.
    ForbiddenError(String),
    /// The gateway itself failed.
    InternalError(String),
    /// A service behind the gateway failed.
    ExternalServiceError(String),
}

/// The body of an error response.
#[derive(Debug, Clone)]
pub struct ErrorResponse {
    /// The HTTP status, as a number in text.
    pub error: String,
    /// What went wrong.
    pub message: String,
    /// A code that names the kind of the error.
    pub code: String,
}

impl AppError {
    /// The HTTP status with which the error is reported.
    pub open spec fn spec_status_code(self) -> int {
        match self {
            AppError::ValidationError(_) => 400,
            AppError::NotFoundError(_) => 404,
            AppError::AuthError(_) => 401,
            AppError::ForbiddenError(_) => 403,
            AppError::DatabaseError(_) => 500,
            AppError::ConfigError(_) => 500,
            AppError::InternalError(_) => 500,
            AppError::ExternalServiceError(_) => 502,
        }
    }

    /// The HTTP status with which the error is reported, as text.
    pub open spec fn spec_status_text(self) -> Seq<char> {
        match self {
            AppError::ValidationError(_) => "400"@,
            AppError::NotFoundError(_) => "404"@,
            AppError::AuthError(_) => "401"@,
            AppError::ForbiddenError(_) => "403"@,
            AppError::DatabaseError(_) => "500"@,
            AppError::ConfigError(_) => "500"@,
            AppError::InternalError(_) => "500"@,
            AppError::ExternalServiceError(_) => "502"@,
        }
    }

    /// The code that names the kind of the error.
    pub open spec fn spec_error_code(self) -> Seq<char> {
        match self {
            AppError::ValidationError(_) => "INVALID_INPUT"@,
            AppError::NotFoundError(_) => "NOT_FOUND"@,
            AppError::AuthError(_) => "UNAUTHORIZED"@,
            AppError::ForbiddenError(_) => "FORBIDDEN"@,
            AppError::DatabaseError(_) => "DATABASE_ERROR"@,
            AppError::ConfigError(_) => "CONFIG_ERROR"@,
            AppError::InternalError(_) => "INTERNAL_ERROR"@,
            AppError::ExternalServiceError(_) => "EXTERNAL_SERVICE_ERROR"@,
        }
    }

    /// What went wrong: the kind of the error, then its detail.
    pub open spec fn spec_message(self) -> Seq<char> {
        match self {
            AppError::ConfigError(m) => "Configuration error: "@ + m@,
            AppError::DatabaseError(m) => "Database error: "@ + m@,
            AppError::ValidationError(m) => "Invalid input: "@ + m@,
            AppError::NotFoundError(m) => "Not found: "@ + m@,
            AppError::AuthError(m) => "Authentication error: "@ + m@,
            AppError::ForbiddenError(m) => "Authorization error: "@ + m@,
            AppError::InternalError(m) => "Internal server error: "@ + m@,
            AppError::ExternalServiceError(m) => "External service error: "@ + m@,
        }
    }

    /// The HTTP status with which the error is reported.
    pub fn status_code(&self) -> (status: u16)
        ensures
            status == self.spec_status_code(),
    {
        match self {
            AppError::ValidationError(_) => 400,
            AppError::NotFoundError(_) => 404,
            AppError::AuthError(_) => 401,
            AppError::ForbiddenError(_) => 403,
            AppError::DatabaseError(_) => 500,
            AppError::ConfigError(_) => 500,
            AppError::InternalError(_) => 500,
            AppError::ExternalServiceError(_) => 502,
        }
    }

    /// The code that names the kind of the error.
    pub fn error_code(&self) -> (code: &'static str)
        ensures
            code@ == self.spec_error_code(),
    {
        match self {
            AppError::ValidationError(_) => "INVALID_INPUT",
            AppError::NotFoundError(_) => "NOT_FOUND",
            AppError::AuthError(_) => "UNAUTHORIZED",
            AppError::ForbiddenError(_) => "FORBIDDEN",
            AppError::DatabaseError(_) => "DATABASE_ERROR",
            AppError::ConfigError(_) => "CONFIG_ERROR",
            AppError::InternalError(_) => "INTERNAL_ERROR",
            AppError::ExternalServiceError(_) => "EXTERNAL_SERVICE_ERROR",
        }
    }

    /// What went wrong, as text.
    pub fn message(&self) -> (text: String)
        ensures
            text@ == self.spec_message(),
    {
        match self {
            AppError::ConfigError(m) => join2("Configuration error: ", m.as_str()),
            AppError::DatabaseError(m) => join2("Database error: ", m.as_str()),
            AppError::ValidationError(m) => join2("Invalid input: ", m.as_str()),
            AppError::NotFoundError(m) => join2("Not found: ", m.as_str()),
            AppError::AuthError(m) => join2("Authentication error: ", m.as_str()),
            AppError::ForbiddenError(m) => join2("Authorization error: ", m.as_str()),
            AppError::InternalError(m) => join2("Internal server error: ", m.as_str()),
            AppError::ExternalServiceError(m) => join2("External service error: ", m.as_str()),
        }
    }

    /// The body of the response that reports the error.
    pub fn error_response(&self) -> (body: ErrorResponse)
        ensures
            body.error@ == self.spec_status_text(),
            body.message@ == self.spec_message(),
            body.code@ == self.spec_error_code(),
    {
        let status = match self {
            AppError::ValidationError(_) => "400",
            AppError::NotFoundError(_) => "404",
            AppError::AuthError(_) => "401",
            AppError::ForbiddenError(_) => "403",
            AppError::DatabaseError(_) => "500",
            AppError::ConfigError(_) => "500",
            AppError::InternalError(_) => "500",
            AppError::ExternalServiceError(_) => "502",
        };
        ErrorResponse {
            error: owned(status),
            message: self.message(),
            code: owned(self.error_code()),
        }
    }
}

} // verus!
