//! Verified core of a client for a fitness-tracking web backend.
//!
//! The library models the browser-mimicking login sequence as an explicit
//! state machine over plain values: the surrounding application performs the
//! HTTP requests and hands every response body back as a string, and the
//! functions here decide, with proved contracts, what the next step is.
//! It also carries the token-expiry bookkeeping, the scraping of CSRF
//! tokens, page titles and service tickets out of HTML, the form-encoded
//! and JSON token-exchange response parsing, and the text/binary response
//! handling of the authenticated retrieval pipeline.
use vstd::prelude::*;

pub mod archive;
pub mod config;
pub mod fetch;
pub mod flow;
pub mod formbody;
pub mod jsonio;
pub mod scrape;
pub mod session;
pub mod tables;
pub mod text;
pub mod tokens;
pub mod urls;

verus! {

/// Name of the on-disk session record, relative to the working directory.
pub const SESSION_FILE: &'static str = ".garmin_session.json";

/// Basic set of operations a full client (library core plus an HTTP
/// driver around it) offers to its users.
pub trait ClientTraits {
    fn login(&mut self, username: &str, password: &str) -> bool;

    fn api_request(&mut self, endpoint: &str) -> ();
}

} // verus!
