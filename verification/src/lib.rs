//! Verified core of a collaborative code-editing backend.
//!
//! The service persists users, projects and files in a remote document
//! store that is reached over REST.  Everything that can be stated and
//! checked without performing I/O lives here: building the typed-field
//! JSON documents the store expects, decoding store responses back into
//! records, building request URLs and queries, and the per-endpoint
//! decision logic that maps store outcomes to client-facing responses.
//! The HTTP shell around this crate performs the actual network calls.

pub mod fields;
pub mod files;
pub mod ids;
pub mod json;
pub mod login;
pub mod project;
pub mod query;
pub mod records;
pub mod responses;
pub mod review;
pub mod status;
pub mod store;
mod strutil;
pub mod urls;
pub mod user;
