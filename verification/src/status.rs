//! The status codes that the presenter answers with, taken from the `http`
//! crate's own constants.

use vstd::prelude::*;

verus! {

/// The number of "200 OK".
pub const OK: u16 = 200;

/// The number of "201 Created".
pub const CREATED: u16 = 201;

/// The number of "400 Bad Request".
pub const BAD_REQUEST: u16 = 400;

/// The number of "404 Not Found".
pub const NOT_FOUND: u16 = 404;

/// The number of "500 Internal Server Error".
pub const INTERNAL_SERVER_ERROR: u16 = 500;

/// The number of `http::StatusCode::OK`, read with `StatusCode::as_u16`.
/// Trusted: that constant is defined with the number 200.
#[verifier::external_body]
pub(crate) fn ok() -> (code: u16)
    ensures
        code == OK,
{
    http::StatusCode::OK.as_u16()
}

/// The number of `http::StatusCode::CREATED`, read with `StatusCode::as_u16`.
/// Trusted: that constant is defined with the number 201.
#[verifier::external_body]
pub(crate) fn created() -> (code: u16)
    ensures
        code == CREATED,
{
    http::StatusCode::CREATED.as_u16()
}

/// The number of `http::StatusCode::BAD_REQUEST`, read with
/// `StatusCode::as_u16`. Trusted: that constant is defined with the number 400.
#[verifier::external_body]
pub(crate) fn bad_request() -> (code: u16)
    ensures
        code == BAD_REQUEST,
{
    http::StatusCode::BAD_REQUEST.as_u16()
}

/// The number of `http::StatusCode::NOT_FOUND`, read with
/// `StatusCode::as_u16`. Trusted: that constant is defined with the number 404.
#[verifier::external_body]
pub(crate) fn not_found() -> (code: u16)
    ensures
        code == NOT_FOUND,
{
    http::StatusCode::NOT_FOUND.as_u16()
}

/// The number of `http::StatusCode::INTERNAL_SERVER_ERROR`, read with
/// `StatusCode::as_u16`. Trusted: that constant is defined with the number 500.
#[verifier::external_body]
pub(crate) fn internal_server_error() -> (code: u16)
    ensures
        code == INTERNAL_SERVER_ERROR,
{
    http::StatusCode::INTERNAL_SERVER_ERROR.as_u16()
}

} // verus!
