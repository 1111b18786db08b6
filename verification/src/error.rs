//! The ways in which a retrieval ends without advisories.

use vstd::prelude::*;
use crate::schema::{
    CVSS, DATA, EDGES, GHSA_ID, NODE, SECURITY_ADVISORIES, SEVERITY, SUMMARY, VECTOR_STRING,
};

verus! {

/// A place in a reply.
#[derive(Debug, Clone, Copy, PartialEq, Eq, Structural)]
pub enum Field {
    /// The reply as a whole.
    Document,
    Data,
    SecurityAdvisories,
    Edges,
    /// One entry of `edges`.
    Edge,
    Node,
    Cvss,
    VectorString,
    GhsaId,
    Severity,
    Summary,
}

/// Why the bytes of a reply yield no advisories.
#[derive(Debug, Clone, Copy, PartialEq, Eq, Structural)]
pub enum ResponseError {
    /// The bytes are not one JSON document.
    Malformed,
    /// An object lacks a member that every reply has.
    Missing(Field),
    /// The value at this place is of a kind that no reply has there; of an
    /// identifier also that it is empty.
    Mistyped(Field),
    /// The reply lists more advisories than one page holds.
    PageExceeded,
}

/// Why a retrieval failed. None of the three is retried.
#[derive(Debug, Clone, Copy, PartialEq, Eq, Structural)]
pub enum FetchError {
    /// No credential was supplied; nothing was sent.
    Configuration,
    /// The request did not bring a reply.
    Transport,
    /// The reply does not hold advisories in the expected shape.
    Deserialization(ResponseError),
}

/// The name by which a diagnostic calls a place in a reply.
pub open spec fn field_name(field: Field) -> Seq<char> {
    match field {
        Field::Document => "reply"@,
        Field::Data => DATA@,
        Field::SecurityAdvisories => SECURITY_ADVISORIES@,
        Field::Edges => EDGES@,
        Field::Edge => "edge"@,
        Field::Node => NODE@,
        Field::Cvss => CVSS@,
        Field::VectorString => VECTOR_STRING@,
        Field::GhsaId => GHSA_ID@,
        Field::Severity => SEVERITY@,
        Field::Summary => SUMMARY@,
    }
}

/// What a diagnostic says of a reply that yields no advisories.
pub open spec fn response_error_text(error: ResponseError) -> Seq<char> {
    match error {
        ResponseError::Malformed => "not a JSON document"@,
        ResponseError::Missing(field) => "missing field: "@ + field_name(field),
        ResponseError::Mistyped(field) => "unexpected kind of value: "@ + field_name(field),
        ResponseError::PageExceeded => "more advisories than one page holds"@,
    }
}

/// The category of a failure, as a diagnostic names it.
pub open spec fn category_name(error: FetchError) -> Seq<char> {
    match error {
        FetchError::Configuration => "configuration error"@,
        FetchError::Transport => "transport error"@,
        FetchError::Deserialization(_) => "deserialization error"@,
    }
}

/// What a diagnostic adds to the category.
pub open spec fn detail_text(error: FetchError) -> Seq<char> {
    match error {
        FetchError::Configuration => "no credential"@,
        FetchError::Transport => "the request brought no reply"@,
        FetchError::Deserialization(e) => response_error_text(e),
    }
}

/// The whole diagnostic: the category, a colon and the detail. It is made
/// of the error alone, so no credential can stand in it.
pub open spec fn diagnostic_text(error: FetchError) -> Seq<char> {
    category_name(error) + ": "@ + detail_text(error)
}

impl Field {
    /// The name by which a diagnostic calls this place.
    pub fn name(&self) -> (s: &'static str)
        ensures
            s@ == field_name(*self),
    {
        match self {
            Field::Document => "reply",
            Field::Data => DATA,
            Field::SecurityAdvisories => SECURITY_ADVISORIES,
            Field::Edges => EDGES,
            Field::Edge => "edge",
            Field::Node => NODE,
            Field::Cvss => CVSS,
            Field::VectorString => VECTOR_STRING,
            Field::GhsaId => GHSA_ID,
            Field::Severity => SEVERITY,
            Field::Summary => SUMMARY,
        }
    }
}

impl ResponseError {
    /// What a diagnostic says of this error.
    pub fn message(&self) -> (s: String)
        ensures
            s@ == response_error_text(*self),
    {
        match self {
            ResponseError::Malformed => String::from_str("not a JSON document"),
            ResponseError::Missing(field) => {
                let mut s = String::from_str("missing field: ");
                s.append(field.name());
                s
            },
            ResponseError::Mistyped(field) => {
                let mut s = String::from_str("unexpected kind of value: ");
                s.append(field.name());
                s
            },
            ResponseError::PageExceeded => String::from_str("more advisories than one page holds"),
        }
    }
}

impl FetchError {
    /// The category of this failure.
    pub fn category(&self) -> (s: &'static str)
        ensures
            s@ == category_name(*self),
    {
        match self {
            FetchError::Configuration => "configuration error",
            FetchError::Transport => "transport error",
            FetchError::Deserialization(_) => "deserialization error",
        }
    }

    /// The diagnostic for this failure.
    pub fn message(&self) -> (s: String)
        ensures
            s@ == diagnostic_text(*self),
    {
        let mut s = String::from_str(self.category());
        s.append(": ");
        match self {
            FetchError::Configuration => {
                s.append("no credential");
            },
            FetchError::Transport => {
                s.append("the request brought no reply");
            },
            FetchError::Deserialization(e) => {
                let detail = e.message();
                s.append(detail.as_str());
            },
        }
        s
    }
}

} // verus!
