//! The names that the query asks for and that a reply is read by.

use vstd::prelude::*;

verus! {

/// The member of a reply that holds what was asked for.
pub const DATA: &'static str = "data";

/// The field of the advisories.
pub const SECURITY_ADVISORIES: &'static str = "securityAdvisories";

/// The list of entries.
pub const EDGES: &'static str = "edges";

/// The advisory of an entry.
pub const NODE: &'static str = "node";

/// The GitHub Security Advisory identifier.
pub const GHSA_ID: &'static str = "ghsaId";

/// The summary.
pub const SUMMARY: &'static str = "summary";

/// The severity.
pub const SEVERITY: &'static str = "severity";

/// The CVSS of an advisory.
pub const CVSS: &'static str = "cvss";

/// The vector string of a CVSS.
pub const VECTOR_STRING: &'static str = "vectorString";

} // verus!
