//! Error surface handed to the boundary layer: service failures classified
//! as a typed not-found / internal distinction, and a transport-shaped error
//! carrying a status code and a message.

use crate::token::AuthError;
use vstd::prelude::*;

verus! {

/// A resource service failure, as handed to the boundary layer.
#[derive(Copy, Clone, PartialEq, Eq, Structural, Debug)]
pub enum ServiceError {
    /// No record with the given id or unique key.
    NotFound,
    /// Hashing a password failed; always treated as server-side.
    Encoding,
}

/// Boundary-shaped error: a status code plus a diagnostic message.
pub struct AppError {
    status_code: u16,
    err: String,
}

impl AppError {
    /// The status code carried by the error.
    pub closed spec fn spec_status_code(&self) -> u16 {
        self.status_code
    }

    /// The diagnostic message carried by the error.
    pub closed spec fn spec_message(&self) -> Seq<char> {
        self.err@
    }

    pub fn new(status_code: u16, err: String) -> (r: AppError)
        ensures
            r.spec_status_code() == status_code,
            r.spec_message() == err@,
    {
        AppError { status_code, err }
    }

    pub fn status_code(&self) -> (r: u16)
        ensures
            r == self.spec_status_code(),
    {
        self.status_code
    }

    pub fn message(&self) -> (r: &String)
        ensures
            r@ == self.spec_message(),
    {
        &self.err
    }

    /// Classifies a service failure: a lookup miss is the caller's problem,
    /// anything else is server-side.
    pub fn of_service_error(e: ServiceError, err: String) -> (r: AppError)
        ensures
            r.spec_status_code() == match e {
                ServiceError::NotFound => 404u16,
                ServiceError::Encoding => 500u16,
            },
            r.spec_message() == err@,
    {
        match e {
            ServiceError::NotFound => AppError { status_code: 404, err },
            ServiceError::Encoding => AppError { status_code: 500, err },
        }
    }

    /// Every authentication failure is surfaced as unauthorized; which check
    /// failed is never leaked to the caller through the status code.
    pub fn of_auth_error(_e: AuthError, err: String) -> (r: AppError)
        ensures
            r.spec_status_code() == 401u16,
            r.spec_message() == err@,
    {
        AppError { status_code: 401, err }
    }
}

} // verus!
