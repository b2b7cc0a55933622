//! Results of the api's requests, and the errors that describe failures.

use crate::payload::DefaultResponse;
use vstd::prelude::*;

verus! {

/// Describes a failing request; `message` tells what went wrong.
pub struct ApiError {
    pub status: u16,
    /// The reason phrase of the status.
    pub error: String,
    pub message: String,
    pub method: String,
    pub path: String,
}

/// Result of a route: a status with a payload on success, or a status with a
/// message, to be reported as an `ApiError`, on failure.
pub enum ApiResult<T> {
    Success { status: u16, payload: T },
    Failure { status: u16, message: String },
}

/// `e` describes a request to `path` with `method` that failed with `status`,
/// whose reason phrase is `reason`, for the reason `message`.
pub open spec fn describes(
    e: ApiError,
    status: u16,
    reason: Seq<char>,
    message: Seq<char>,
    method: Seq<char>,
    path: Seq<char>,
) -> bool {
    &&& e.status == status
    &&& e.error@ == reason
    &&& e.message@ == message
    &&& e.method@ == method
    &&& e.path@ == path
}

/// `r` is a failure with `status` and `message`.
pub open spec fn fails_with<T>(r: ApiResult<T>, status: u16, message: Seq<char>) -> bool {
    r matches ApiResult::Failure { status: s, message: m } && s == status && m@ == message
}

/// `r` is a success with `status` and a default response saying `text`.
pub open spec fn succeeds_with(r: ApiResult<DefaultResponse>, status: u16, text: Seq<char>) -> bool {
    r matches ApiResult::Success { status: s, payload } && s == status && payload.response@ == text
}

impl ApiError {
    /// Describes the failure of the request to `path` with `method`.
    pub fn new(status: u16, reason: &str, message: &str, method: &str, path: &str) -> (r: Self)
        ensures
            describes(r, status, reason@, message@, method@, path@),
    {
        ApiError {
            status,
            error: reason.to_owned(),
            message: message.to_owned(),
            method: method.to_owned(),
            path: path.to_owned(),
        }
    }
}

/// Any failure that has no handler of its own; `reason` is the reason phrase
/// of `status`.
pub fn default(status: u16, reason: &str, method: &str, path: &str) -> (r: ApiError)
    ensures
        describes(r, status, reason@, "unexepected error"@, method@, path@),
{
    ApiError::new(status, reason, "unexepected error", method, path)
}

/// 400
pub fn bad_request(method: &str, path: &str) -> (r: ApiError)
    ensures
        describes(r, 400, "Bad Request"@, "invalid request"@, method@, path@),
{
    ApiError::new(400, "Bad Request", "invalid request", method, path)
}

/// 401
pub fn unauthorized(method: &str, path: &str) -> (r: ApiError)
    ensures
        describes(
            r,
            401,
            "Unauthorized"@,
            "user must be logged in to execute this request"@,
            method@,
            path@,
        ),
{
    ApiError::new(401, "Unauthorized", "user must be logged in to execute this request", method, path)
}

/// 403
pub fn forbidden(method: &str, path: &str) -> (r: ApiError)
    ensures
        describes(r, 403, "Forbidden"@, "this request is not allowed"@, method@, path@),
{
    ApiError::new(403, "Forbidden", "this request is not allowed", method, path)
}

/// 404
pub fn not_found(method: &str, path: &str) -> (r: ApiError)
    ensures
        describes(r, 404, "Not Found"@, "requested resource does not exist"@, method@, path@),
{
    ApiError::new(404, "Not Found", "requested resource does not exist", method, path)
}

/// 422
pub fn unprocessable_entity(method: &str, path: &str) -> (r: ApiError)
    ensures
        describes(
            r,
            422,
            "Unprocessable Entity"@,
            "the request cannot be processed because the payload is ill-formed"@,
            method@,
            path@,
        ),
{
    ApiError::new(
        422,
        "Unprocessable Entity",
        "the request cannot be processed because the payload is ill-formed",
        method,
        path,
    )
}

/// 500
pub fn internal_error(method: &str, path: &str) -> (r: ApiError)
    ensures
        describes(
            r,
            500,
            "Internal Server Error"@,
            "Ooooooops.... Looks like we messed up, sorry :)"@,
            method@,
            path@,
        ),
{
    ApiError::new(
        500,
        "Internal Server Error",
        "Ooooooops.... Looks like we messed up, sorry :)",
        method,
        path,
    )
}

} // verus!
