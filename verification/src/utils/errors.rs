use vstd::prelude::*;

verus! {

/// The transport status attached to a failed operation.
#[derive(Clone, Copy, Debug, PartialEq, Eq, Structural)]
pub enum Status {
    BadRequest,
    Unauthorized,
    Forbidden,
    NotFound,
    Conflict,
    InternalServerError,
}

impl Status {
    /// The numeric HTTP status code.
    pub open spec fn code_spec(self) -> int {
        match self {
            Status::BadRequest => 400,
            Status::Unauthorized => 401,
            Status::Forbidden => 403,
            Status::NotFound => 404,
            Status::Conflict => 409,
            Status::InternalServerError => 500,
        }
    }

    pub fn code(self) -> (code: u16)
        ensures
            code == self.code_spec(),
    {
        match self {
            Status::BadRequest => 400,
            Status::Unauthorized => 401,
            Status::Forbidden => 403,
            Status::NotFound => 404,
            Status::Conflict => 409,
            Status::InternalServerError => 500,
        }
    }
}

/// The body sent with a failed operation: a single human-readable message.
#[derive(Debug, Clone, PartialEq, Eq)]
pub struct ErrorResponse {
    pub message: String,
}

/// A failure of a request handler: a status and the message shown to the client.
#[derive(Debug, Clone, PartialEq, Eq)]
pub struct AppError {
    pub status: Status,
    pub message: String,
}

impl AppError {
    pub fn new(status: Status, message: &str) -> (e: AppError)
        ensures
            e.status == status,
            e.message@ == message@,
    {
        AppError { status, message: message.to_owned() }
    }

    pub fn bad_request(message: &str) -> (e: AppError)
        ensures
            e.status == Status::BadRequest,
            e.message@ == message@,
    {
        AppError::new(Status::BadRequest, message)
    }

    pub fn unauthorized(message: &str) -> (e: AppError)
        ensures
            e.status == Status::Unauthorized,
            e.message@ == message@,
    {
        AppError::new(Status::Unauthorized, message)
    }

    pub fn forbidden(message: &str) -> (e: AppError)
        ensures
            e.status == Status::Forbidden,
            e.message@ == message@,
    {
        AppError::new(Status::Forbidden, message)
    }

    pub fn not_found(message: &str) -> (e: AppError)
        ensures
            e.status == Status::NotFound,
            e.message@ == message@,
    {
        AppError::new(Status::NotFound, message)
    }

    pub fn conflict(message: &str) -> (e: AppError)
        ensures
            e.status == Status::Conflict,
            e.message@ == message@,
    {
        AppError::new(Status::Conflict, message)
    }

    pub fn internal_error(message: &str) -> (e: AppError)
        ensures
            e.status == Status::InternalServerError,
            e.message@ == message@,
    {
        AppError::new(Status::InternalServerError, message)
    }

    /// The status and body of the response that reports this failure.
    pub fn into_response(self) -> (r: (Status, ErrorResponse))
        ensures
            r.0 == self.status,
            r.1.message@ == self.message@,
    {
        (self.status, ErrorResponse { message: self.message })
    }
}

/// `r` is the failure with the given status and message.
pub open spec fn fails_with<T>(r: Result<T, AppError>, status: Status, message: Seq<char>) -> bool {
    r matches Err(e) && e.status == status && e.message@ == message
}

} // verus!
