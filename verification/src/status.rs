//! HTTP status codes and the error value that the library's decisions produce.
use vstd::prelude::*;

verus! {

pub const STATUS_OK: u16 = 200;
pub const STATUS_CREATED: u16 = 201;
pub const STATUS_ACCEPTED: u16 = 202;
pub const STATUS_NO_CONTENT: u16 = 204;
pub const STATUS_BAD_REQUEST: u16 = 400;
pub const STATUS_UNAUTHORIZED: u16 = 401;
pub const STATUS_FORBIDDEN: u16 = 403;
pub const STATUS_NOT_FOUND: u16 = 404;
pub const STATUS_CONFLICT: u16 = 409;
pub const STATUS_INTERNAL_SERVER_ERROR: u16 = 500;

/// A refused request: the HTTP status and the message sent back with it.
#[derive(Debug)]
pub struct ApiError {
    pub status: u16,
    pub message: String,
}

impl ApiError {
    pub fn new(status: u16, message: &str) -> (r: ApiError)
        ensures
            r.status == status,
            r.message@ == message@,
    {
        ApiError { status, message: message.to_owned() }
    }
}

} // verus!
