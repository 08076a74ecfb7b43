//! How the HTTP interface answers a failed request.
use crate::controller::dto::ErrorResponseDto;
use crate::service::delivery::ServiceError;
use vstd::prelude::*;

verus! {

#[derive(Debug)]
pub enum AppError {
    NotFound,
    BadRequest(String),
    InternalServerError(String),
}

/// The HTTP status code, title and message that answer a service error. A missing
/// delivery and a refused status move are answered 404, an invalid request 400, both
/// titled "Not Found" with the error's own text; database and serialization errors are
/// answered 500 "Internal Server Error" with a fixed message that hides their details.
pub fn create_error_response(error: &ServiceError) -> (r: (u16, ErrorResponseDto))
    ensures
        match error {
            ServiceError::NotFound => r.0 == 404 && r.1.error@ == "Not Found"@ && r.1.message@
                == "Delivery not found"@,
            ServiceError::InvalidDto => r.0 == 400 && r.1.error@ == "Not Found"@ && r.1.message@
                == "Invalid DTO"@,
            ServiceError::InvalidStatusTransition => r.0 == 404 && r.1.error@ == "Not Found"@
                && r.1.message@ == "Invalid status transition"@,
            ServiceError::DatabaseError(_) => r.0 == 500 && r.1.error@ == "Internal Server Error"@
                && r.1.message@ == "Database error"@,
            ServiceError::SerializationError(_) => r.0 == 500 && r.1.error@
                == "Internal Server Error"@ && r.1.message@ == "Serialization error"@,
        },
{
    match error {
        ServiceError::NotFound => (404, ErrorResponseDto { error: "Not Found", message: error.message() }),
        ServiceError::InvalidDto => (400, ErrorResponseDto { error: "Not Found", message: error.message() }),
        ServiceError::InvalidStatusTransition => (
            404,
            ErrorResponseDto { error: "Not Found", message: error.message() },
        ),
        ServiceError::DatabaseError(_) => (
            500,
            ErrorResponseDto {
                error: "Internal Server Error",
                message: String::from_str("Database error"),
            },
        ),
        ServiceError::SerializationError(_) => (
            500,
            ErrorResponseDto {
                error: "Internal Server Error",
                message: String::from_str("Serialization error"),
            },
        ),
    }
}

} // verus!
