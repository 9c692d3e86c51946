//! What a request ends in: a status and a body.

use vstd::prelude::*;

verus! {

/// The body of a failed request: a sentence for people and a code for machines.
#[derive(Debug)]
pub struct ErrorResponse {
    pub error: String,
    pub code: String,
}

/// What an `ErrorResponse` says.
pub struct ErrorView {
    pub error: Seq<char>,
    pub code: Seq<char>,
}

impl View for ErrorResponse {
    type V = ErrorView;

    open spec fn view(&self) -> ErrorView {
        ErrorView { error: self.error@, code: self.code@ }
    }
}

impl Clone for ErrorResponse {
    fn clone(&self) -> (r: Self)
        ensures
            r@ == self@,
    {
        ErrorResponse { error: self.error.clone(), code: self.code.clone() }
    }
}

impl ErrorResponse {
    pub fn new(error: &str, code: &str) -> (r: ErrorResponse)
        ensures
            r@ == (ErrorView { error: error@, code: code@ }),
    {
        ErrorResponse { error: error.to_owned(), code: code.to_owned() }
    }
}

/// The end of a request: the status under which the answer goes out, with its body.
#[derive(Debug)]
pub enum HttpOutcome<T> {
    /// 200
    Success(T),
    /// 201
    Created(T),
    /// 400
    BadRequest(ErrorResponse),
    /// 404
    NotFound(ErrorResponse),
    /// 500
    InternalServerError(ErrorResponse),
}

impl<T> HttpOutcome<T> {
    /// The number of the status.
    pub open spec fn status(self) -> int {
        match self {
            HttpOutcome::Success(_) => 200,
            HttpOutcome::Created(_) => 201,
            HttpOutcome::BadRequest(_) => 400,
            HttpOutcome::NotFound(_) => 404,
            HttpOutcome::InternalServerError(_) => 500,
        }
    }

    /// The body of the failure, where the request failed.
    pub open spec fn failure(self) -> Option<ErrorView> {
        match self {
            HttpOutcome::BadRequest(e) => Some(e@),
            HttpOutcome::NotFound(e) => Some(e@),
            HttpOutcome::InternalServerError(e) => Some(e@),
            _ => None,
        }
    }

    /// Whether the request failed with the status `status` and the body
    /// `body`.
    pub open spec fn failed_with(self, status: int, body: ErrorView) -> bool {
        self.status() == status && self.failure() == Some(body)
    }

    /// Whether the request was served.
    pub open spec fn served(self) -> bool {
        self is Success || self is Created
    }

    pub fn status_code(&self) -> (code: u16)
        ensures
            code == self.status(),
    {
        match self {
            HttpOutcome::Success(_) => 200,
            HttpOutcome::Created(_) => 201,
            HttpOutcome::BadRequest(_) => 400,
            HttpOutcome::NotFound(_) => 404,
            HttpOutcome::InternalServerError(_) => 500,
        }
    }

    pub fn is_success(&self) -> (b: bool)
        ensures
            b == self.served(),
    {
        match self {
            HttpOutcome::Success(_) => true,
            HttpOutcome::Created(_) => true,
            _ => false,
        }
    }
}

} // verus!

verus! {

/// The answer to a health probe. The caller adds what the build knows, such
/// as the version.
#[derive(Debug)]
pub struct HealthReport {
    pub status: String,
    pub service: String,
    pub checked_at: crate::clock::Timestamp,
}

impl HealthReport {
    /// The report of a service that is up.
    pub fn up(service: &str, checked_at: crate::clock::Timestamp) -> (r: HealthReport)
        ensures
            r.status@ == "ok"@,
            r.service@ == service@,
            r.checked_at == checked_at,
    {
        HealthReport { status: "ok".to_owned(), service: service.to_owned(), checked_at }
    }
}

} // verus!
