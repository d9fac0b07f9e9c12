use vstd::prelude::*;

use super::errors::{AppError, Status};

verus! {

/// Turns the error of a result into an `AppError` with a given status and
/// message, and leaves a success as it is.
pub trait ResultExt<T, E> {
    fn app_error(self, status: Status, error: &str) -> Result<T, AppError>;

    fn internal_error(self, msg: &str) -> Result<T, AppError>;

    fn bad_request(self, msg: &str) -> Result<T, AppError>;

    fn conflict(self, msg: &str) -> Result<T, AppError>;

    fn not_found(self, msg: &str) -> Result<T, AppError>;

    fn forbidden(self, msg: &str) -> Result<T, AppError>;
}

/// `mapped` is `given` with its error, if any, replaced by one of the
/// given status and message.
pub open spec fn replaces_error<T, E>(
    given: Result<T, E>,
    mapped: Result<T, AppError>,
    status: Status,
    message: Seq<char>,
) -> bool {
    match given {
        Ok(value) => mapped matches Ok(kept) && kept == value,
        Err(_) => mapped matches Err(e) && e.status == status && e.message@ == message,
    }
}

impl<T, E> ResultExt<T, E> for Result<T, E> {
    fn app_error(self, status: Status, error: &str) -> (r: Result<T, AppError>)
        ensures
            replaces_error(self, r, status, error@),
    {
        match self {
            Ok(value) => Ok(value),
            Err(_) => Err(AppError::new(status, error)),
        }
    }

    fn internal_error(self, msg: &str) -> (r: Result<T, AppError>)
        ensures
            replaces_error(self, r, Status::InternalServerError, msg@),
    {
        self.app_error(Status::InternalServerError, msg)
    }

    fn bad_request(self, msg: &str) -> (r: Result<T, AppError>)
        ensures
            replaces_error(self, r, Status::BadRequest, msg@),
    {
        self.app_error(Status::BadRequest, msg)
    }

    fn conflict(self, msg: &str) -> (r: Result<T, AppError>)
        ensures
            replaces_error(self, r, Status::Conflict, msg@),
    {
        self.app_error(Status::Conflict, msg)
    }

    fn not_found(self, msg: &str) -> (r: Result<T, AppError>)
        ensures
            replaces_error(self, r, Status::NotFound, msg@),
    {
        self.app_error(Status::NotFound, msg)
    }

    fn forbidden(self, msg: &str) -> (r: Result<T, AppError>)
        ensures
            replaces_error(self, r, Status::Forbidden, msg@),
    {
        self.app_error(Status::Forbidden, msg)
    }
}

} // verus!
