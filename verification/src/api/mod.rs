//! Request handling rules: what each HTTP endpoint decides, as functions from
//! the request and the data read for it to the reply and the data to write.
//! The transport (routing, JSON, database access) drives these functions.

pub mod auth;
pub mod auth_middleware;
pub mod health;
pub mod kitchen;
pub mod orders;
pub mod payments;
pub mod products;
pub mod settings;
pub mod users;
pub mod wallet;

use vstd::prelude::*;

use crate::domain::DomainError;
use crate::text::string_of;

verus! {

/// HTTP status codes used by the API.
pub const OK: u16 = 200;
pub const CREATED: u16 = 201;
pub const NO_CONTENT: u16 = 204;
pub const BAD_REQUEST: u16 = 400;
pub const UNAUTHORIZED: u16 = 401;
pub const FORBIDDEN: u16 = 403;
pub const NOT_FOUND: u16 = 404;
pub const CONFLICT: u16 = 409;
pub const UNPROCESSABLE_ENTITY: u16 = 422;
pub const INTERNAL_SERVER_ERROR: u16 = 500;
pub const NOT_IMPLEMENTED: u16 = 501;

/// The JSON body of an error reply.
#[derive(Debug, Clone)]
pub struct ApiError {
    pub error: String,
    pub code: String,
}

/// An error reply: a status code and its body.
pub type ErrorReply = (u16, ApiError);

/// Whether `r` is the error reply with this status, message and code.
pub open spec fn is_reply(r: ErrorReply, status: u16, error: Seq<char>, code: Seq<char>) -> bool {
    r.0 == status && r.1.error@ == error && r.1.code@ == code
}

/// The error reply with this status, message and code.
pub fn error_response(error: &str, code: &str, status: u16) -> (r: ErrorReply)
    ensures
        is_reply(r, status, error@, code@),
{
    (status, ApiError { error: string_of(error), code: string_of(code) })
}

/// The error reply with this status, message (owned) and code.
pub fn error_reply(error: String, code: &str, status: u16) -> (r: ErrorReply)
    ensures
        is_reply(r, status, error@, code@),
{
    (status, ApiError { error, code: string_of(code) })
}

/// The error reply with this status and code whose message is the text of
/// the domain error `e`.
pub fn domain_error_reply(e: &DomainError, code: &str, status: u16) -> (r: ErrorReply)
    ensures
        is_reply(r, status, e.message_spec(), code@),
{
    (status, ApiError { error: e.message(), code: string_of(code) })
}

/// The directory of the web front end: `../dist` when it exists (a run from
/// the Tauri source directory), `dist` otherwise.
pub fn resolve_dist_path(parent_dist_exists: bool) -> (r: String)
    ensures
        r@ == if parent_dist_exists { "../dist"@ } else { "dist"@ },
{
    if parent_dist_exists {
        string_of("../dist")
    } else {
        string_of("dist")
    }
}

} // verus!
