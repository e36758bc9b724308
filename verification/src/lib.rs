//! A verified client-side engine for a table-storage query protocol.
//!
//! The heart of the crate is the paginated query engine: it builds the
//! request for each page of a server-driven query, threads the opaque
//! continuation token from each response into the next request, and stops
//! as soon as a page arrives without one.  Request construction, token
//! threading, response decoding and termination are all stated in contracts
//! and proved; the HTTP transport itself lives outside the library.

pub mod errors;
pub mod headers;
pub mod json;
pub mod laws;
pub mod query;
pub mod strutil;
pub mod user_client;
