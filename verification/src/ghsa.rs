//! The advisories of one reply, in the shape in which the API nests them.

use vstd::prelude::*;

verus! {

/// The number of advisories asked for in one request. A reply that lists
/// more is refused, so a decoded reply holds at most this many.
pub const PAGE_SIZE: usize = 10;

/// One security advisory as contracts speak of it.
pub struct Advisory {
    /// The GitHub Security Advisory identifier.
    pub id: Seq<char>,
    /// A short plaintext summary; may be empty.
    pub summary: Seq<char>,
    /// The severity label, taken over as the API gives it.
    pub severity: Seq<char>,
    /// The CVSS vector string, where the API has one.
    pub cvss_vector: Option<Seq<char>>,
}

impl Advisory {
    /// An advisory has an identifier: it is not empty.
    pub open spec fn well_formed(self) -> bool {
        self.id.len() > 0
    }
}

/// The advisories of one reply: at most a page of them, each with an
/// identifier.
pub open spec fn is_batch(batch: Seq<Advisory>) -> bool {
    &&& batch.len() <= PAGE_SIZE
    &&& forall|i: int| 0 <= i < batch.len() ==> (#[trigger] batch[i]).well_formed()
}

/// The CVSS associated with an advisory.
#[derive(Debug, Clone, PartialEq, Eq)]
pub struct Cvss {
    /// The CVSS vector string; `None` where the API gave none or gave `null`.
    pub vector_string: Option<String>,
}

/// The item at the end of an edge: one advisory.
#[derive(Debug, Clone, PartialEq, Eq)]
pub struct Node {
    /// The CVSS associated with this advisory.
    pub cvss: Cvss,
    /// The GitHub Security Advisory identifier.
    pub ghsa_id: String,
    /// The severity of the advisory.
    pub severity: String,
    /// A short plaintext summary of the advisory.
    pub summary: String,
}

/// One entry of the list of advisories.
#[derive(Debug, Clone, PartialEq, Eq)]
pub struct Edge {
    /// The item at the end of the edge.
    pub node: Node,
}

/// The advisories of one reply, in the order in which the API listed them.
#[derive(Debug, Clone, PartialEq, Eq)]
pub struct SecurityAdvisories {
    /// A list of edges.
    pub edges: Vec<Edge>,
}

/// The `data` member of a reply.
#[derive(Debug, Clone, PartialEq, Eq)]
pub struct Data {
    /// The advisories asked for.
    pub security_advisories: SecurityAdvisories,
}

/// A whole reply of the advisory API.
#[derive(Debug, Clone, PartialEq, Eq)]
pub struct GhsaResponse {
    /// What was asked for.
    pub data: Data,
}

impl View for Cvss {
    type V = Option<Seq<char>>;

    open spec fn view(&self) -> Option<Seq<char>> {
        match self.vector_string {
            Some(s) => Some(s@),
            None => None,
        }
    }
}

impl View for Node {
    type V = Advisory;

    open spec fn view(&self) -> Advisory {
        Advisory {
            id: self.ghsa_id@,
            summary: self.summary@,
            severity: self.severity@,
            cvss_vector: self.cvss@,
        }
    }
}

impl View for Edge {
    type V = Advisory;

    open spec fn view(&self) -> Advisory {
        self.node@
    }
}

impl View for SecurityAdvisories {
    type V = Seq<Advisory>;

    open spec fn view(&self) -> Seq<Advisory> {
        self.edges@.map_values(|e: Edge| e@)
    }
}

impl View for Data {
    type V = Seq<Advisory>;

    open spec fn view(&self) -> Seq<Advisory> {
        self.security_advisories@
    }
}

impl View for GhsaResponse {
    type V = Seq<Advisory>;

    open spec fn view(&self) -> Seq<Advisory> {
        self.data@
    }
}

impl GhsaResponse {
    /// The number of advisories in the reply.
    pub fn len(&self) -> (n: usize)
        ensures
            n == self@.len(),
    {
        self.data.security_advisories.edges.len()
    }
}

} // verus!
