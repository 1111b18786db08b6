//! Retrieval of recently published GitHub security advisories, without the I/O.
//!
//! The crate computes everything around one GraphQL request: the lower bound
//! of the publication window, the query document, the request to send, and
//! the advisories held by the reply. Sending the request is left to the
//! caller, who hands the reply's bytes back.

pub mod error;
pub mod ghsa;
pub mod json;
pub mod query;
pub mod report;
pub mod request;
pub mod response;
pub mod schema;
pub mod window;

pub use ghsa::{Advisory, Cvss, Data, Edge, GhsaResponse, Node, SecurityAdvisories, PAGE_SIZE};
