//! A local bridge from an application front end to a backend process that
//! answers HTTP requests on a Unix domain socket.
//!
//! The library holds everything that decides what goes over the socket and
//! what comes back: the catalogue of operations with their methods, paths and
//! bodies, the multipart encoding of an upload, the decoding of responses and
//! the lifecycle of the backend process. Sending bytes is left to the caller.

use vstd::prelude::*;

pub mod catalogue;
pub mod error;
pub mod image;
pub mod json;
pub mod lifecycle;
pub mod multipart;

verus! {

/// What the backend answers to a health check.
#[derive(Clone, Debug)]
pub struct HealthResponse {
    pub status: String,
    pub message: String,
}

} // verus!
