//! Cat accounts for the meowspace web service: registration, login,
//! profile updates and the authentication claims handed out to a cat.
//!
//! Everything here computes on plain values; the HTTP server and the
//! database live around this library and hand it what they read.

pub mod clock;
pub mod db;
pub mod errors;
pub mod models;
pub mod routes;
pub mod scrypt;

use vstd::prelude::*;

verus! {

/// The body of an error reply: a status and the reason.
pub struct StatusReply {
    pub status: String,
    pub reason: String,
}

/// The reply to a request for a resource that does not exist.
pub fn not_found() -> (r: StatusReply)
    ensures
        r.status@ == "error"@,
        r.reason@ == "Resource was not found"@,
{
    StatusReply { status: "error".to_owned(), reason: "Resource was not found".to_owned() }
}

} // verus!
