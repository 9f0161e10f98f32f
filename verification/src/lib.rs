//! A request router for a small site: a greeting at `/`, and two directories
//! of files served under `/static/` and `/geojson/`.
//!
//! The router decides; it reads no file. `Router::resolve` says what a request
//! resolves to. Where that is a file, the caller asks the host what is at the
//! file's location and reads it, and hands what the host said to the library:
//! `probed` and `read_outcome` say what became of the file, `serve` gives the
//! response. For everything else `answer` gives the response; `respond` does
//! both in one call. Every file request that the router hands out lies below
//! the root of its mount, whatever the request path held.

use vstd::prelude::*;

pub mod laws;
pub mod media;
pub mod method;
pub mod outcome;
pub mod path;
pub mod percent;
pub mod request;
pub mod response;
pub mod route;
pub mod router;
pub mod text;

verus! {

/// The body of the greeting that the root path answers with.
pub fn index() -> (body: &'static str)
    ensures
        body@ == "Hello, world!"@,
{
    "Hello, world!"
}

} // verus!
