//! Errors of the HTTP interface.

use vstd::prelude::*;

use crate::text::chars;
use crate::text::chars::concat2;

verus! {

/// The body of an error response.
#[derive(Debug)]
pub struct ErrorResponse {
    pub error: String,
    pub message: String,
    pub details: Option<String>,
}

impl ErrorResponse {
    /// An error response without details.
    pub fn new(error: &str, message: &str) -> (r: ErrorResponse)
        ensures
            r.error@ == error@,
            r.message@ == message@,
            r.details is None,
    {
        ErrorResponse { error: error.to_owned(), message: message.to_owned(), details: None }
    }

    /// The same response with details.
    pub fn with_details(self, details: &str) -> (r: ErrorResponse)
        ensures
            r.error == self.error,
            r.message == self.message,
            chars::opt_view(r.details) == Some(details@),
    {
        ErrorResponse {
            error: self.error,
            message: self.message,
            details: Some(details.to_owned()),
        }
    }
}

/// An error of the HTTP interface.
#[derive(Debug)]
pub enum ApiError {
    /// 401: the API key is wrong or missing.
    Unauthorized,
    /// 404: the resource does not exist.
    NotFound(String),
    /// 400: the request is not valid.
    BadRequest(String),
    /// 409: the request conflicts with the state.
    Conflict(String),
    /// 500: something failed inside.
    Internal(String),
    /// 503: the service cannot answer now.
    ServiceUnavailable(String),
}

/// What a request that can fail gives.
pub type ApiResult<T> = Result<T, ApiError>;

impl ApiError {
    /// The kind of error and the text that it carries.
    pub open spec fn parts(self) -> (int, Seq<char>) {
        match self {
            ApiError::Unauthorized => (401, Seq::empty()),
            ApiError::NotFound(s) => (404, s@),
            ApiError::BadRequest(s) => (400, s@),
            ApiError::Conflict(s) => (409, s@),
            ApiError::Internal(s) => (500, s@),
            ApiError::ServiceUnavailable(s) => (503, s@),
        }
    }

    /// The API key is wrong or missing.
    pub fn unauthorized() -> (r: ApiError)
        ensures
            r is Unauthorized,
    {
        ApiError::Unauthorized
    }

    /// The resource does not exist.
    pub fn not_found(resource: &str) -> (r: ApiError)
        ensures
            r is NotFound,
            r.parts() == (404int, resource@),
    {
        ApiError::NotFound(resource.to_owned())
    }

    /// The request is not valid.
    pub fn bad_request(message: &str) -> (r: ApiError)
        ensures
            r is BadRequest,
            r.parts() == (400int, message@),
    {
        ApiError::BadRequest(message.to_owned())
    }

    /// The request conflicts with the state.
    pub fn conflict(message: &str) -> (r: ApiError)
        ensures
            r is Conflict,
            r.parts() == (409int, message@),
    {
        ApiError::Conflict(message.to_owned())
    }

    /// Something failed inside.
    pub fn internal(message: &str) -> (r: ApiError)
        ensures
            r is Internal,
            r.parts() == (500int, message@),
    {
        ApiError::Internal(message.to_owned())
    }

    /// The service cannot answer now.
    pub fn service_unavailable(message: &str) -> (r: ApiError)
        ensures
            r is ServiceUnavailable,
            r.parts() == (503int, message@),
    {
        ApiError::ServiceUnavailable(message.to_owned())
    }

    /// The HTTP status of the error.
    pub fn status_code(&self) -> (r: u16)
        ensures
            r == self.parts().0,
    {
        match self {
            ApiError::Unauthorized => 401,
            ApiError::NotFound(_) => 404,
            ApiError::BadRequest(_) => 400,
            ApiError::Conflict(_) => 409,
            ApiError::Internal(_) => 500,
            ApiError::ServiceUnavailable(_) => 503,
        }
    }

    /// The identifier of the kind of error.
    pub open spec fn error_type(self) -> Seq<char> {
        match self {
            ApiError::Unauthorized => "unauthorized"@,
            ApiError::NotFound(_) => "not_found"@,
            ApiError::BadRequest(_) => "bad_request"@,
            ApiError::Conflict(_) => "conflict"@,
            ApiError::Internal(_) => "internal_error"@,
            ApiError::ServiceUnavailable(_) => "service_unavailable"@,
        }
    }

    /// The message of the response body.
    pub open spec fn response_message(self) -> Seq<char> {
        match self {
            ApiError::Unauthorized => "Invalid or missing API key"@,
            ApiError::NotFound(s) => s@ + " not found"@,
            ApiError::BadRequest(s) => s@,
            ApiError::Conflict(s) => s@,
            ApiError::Internal(s) => s@,
            ApiError::ServiceUnavailable(s) => s@,
        }
    }

    /// The body of the response that reports the error.
    pub fn to_response(&self) -> (r: ErrorResponse)
        ensures
            r.error@ == self.error_type(),
            r.message@ == self.response_message(),
            r.details is None,
    {
        match self {
            ApiError::Unauthorized => ErrorResponse::new(
                "unauthorized",
                "Invalid or missing API key",
            ),
            ApiError::NotFound(s) => ErrorResponse::new(
                "not_found",
                concat2(s.as_str(), " not found").as_str(),
            ),
            ApiError::BadRequest(s) => ErrorResponse::new("bad_request", s.as_str()),
            ApiError::Conflict(s) => ErrorResponse::new("conflict", s.as_str()),
            ApiError::Internal(s) => ErrorResponse::new("internal_error", s.as_str()),
            ApiError::ServiceUnavailable(s) => ErrorResponse::new(
                "service_unavailable",
                s.as_str(),
            ),
        }
    }

    /// The text that describes the error in a log.
    pub open spec fn text(self) -> Seq<char> {
        match self {
            ApiError::Unauthorized => "Unauthorized"@,
            ApiError::NotFound(s) => "Not found: "@ + s@,
            ApiError::BadRequest(s) => "Bad request: "@ + s@,
            ApiError::Conflict(s) => "Conflict: "@ + s@,
            ApiError::Internal(s) => "Internal error: "@ + s@,
            ApiError::ServiceUnavailable(s) => "Service unavailable: "@ + s@,
        }
    }

    /// Describes the error.
    pub fn to_text(&self) -> (r: String)
        ensures
            r@ == self.text(),
    {
        match self {
            ApiError::Unauthorized => "Unauthorized".to_owned(),
            ApiError::NotFound(s) => concat2("Not found: ", s.as_str()),
            ApiError::BadRequest(s) => concat2("Bad request: ", s.as_str()),
            ApiError::Conflict(s) => concat2("Conflict: ", s.as_str()),
            ApiError::Internal(s) => concat2("Internal error: ", s.as_str()),
            ApiError::ServiceUnavailable(s) => concat2("Service unavailable: ", s.as_str()),
        }
    }
}

} // verus!
