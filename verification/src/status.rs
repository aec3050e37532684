//! Classification of HTTP response statuses.

use vstd::prelude::*;

verus! {

/// The class of a status code, by its hundreds digit.
#[derive(Clone, Copy, Debug, PartialEq, Eq, Structural)]
pub enum HttpClass {
    Informational,
    Success,
    Redirection,
    ClientError,
    ServerError,
    NoClass,
}

/// Why a response is not trusted: the remote side refused the request.
#[derive(Clone, Copy, Debug, PartialEq, Eq, Structural)]
pub enum ApiError {
    /// A status from 400 to 499.
    ClientError,
    /// A status from 500 to 599.
    ServerError,
}

/// The class that a status code belongs to.
pub open spec fn class_of(status: u16) -> HttpClass {
    if 100 <= status <= 199 {
        HttpClass::Informational
    } else if 200 <= status <= 299 {
        HttpClass::Success
    } else if 300 <= status <= 399 {
        HttpClass::Redirection
    } else if 400 <= status <= 499 {
        HttpClass::ClientError
    } else if 500 <= status <= 599 {
        HttpClass::ServerError
    } else {
        HttpClass::NoClass
    }
}

/// What `check_http_error` answers for a status: only the 4xx and 5xx ranges
/// are rejections, every other status lets the response through.
pub open spec fn rejection(status: u16) -> Option<ApiError> {
    if 400 <= status <= 499 {
        Some(ApiError::ClientError)
    } else if 500 <= status <= 599 {
        Some(ApiError::ServerError)
    } else {
        None
    }
}

/// What a check of `status` returns: the rejection as an error, if there is
/// one.
pub open spec fn spec_check(status: u16) -> Result<(), ApiError> {
    match rejection(status) {
        Some(kind) => Err(kind),
        None => Ok(()),
    }
}

/// Calls `hyper::status::StatusCode::from_u16` and then `StatusCode::class`
/// on the result. hyper keeps the number of every code, registered or not,
/// and `class` sorts that number into the five ranges of a hundred between
/// 100 and 599, with `NoClass` for anything else.
#[verifier::external_body]
fn status_class(status: u16) -> (class: HttpClass)
    ensures
        class == class_of(status),
{
    match hyper::status::StatusCode::from_u16(status).class() {
        hyper::status::StatusClass::Informational => HttpClass::Informational,
        hyper::status::StatusClass::Success => HttpClass::Success,
        hyper::status::StatusClass::Redirection => HttpClass::Redirection,
        hyper::status::StatusClass::ClientError => HttpClass::ClientError,
        hyper::status::StatusClass::ServerError => HttpClass::ServerError,
        hyper::status::StatusClass::NoClass => HttpClass::NoClass,
    }
}

/// Checks a response status for a 4xx or 5xx error.
pub fn check_http_error(status: u16) -> (res: Result<(), ApiError>)
    ensures
        res == spec_check(status),
        200 <= status < 400 ==> res is Ok,
        400 <= status < 500 ==> res == Err::<(), ApiError>(ApiError::ClientError),
        500 <= status < 600 ==> res == Err::<(), ApiError>(ApiError::ServerError),
{
    match status_class(status) {
        HttpClass::ClientError => Err(ApiError::ClientError),
        HttpClass::ServerError => Err(ApiError::ServerError),
        _ => Ok(()),
    }
}

} // verus!
