//! The one request of a retrieval, and what its outcome amounts to.
//!
//! Nothing here sends anything: [`prepare`] says what to send and where, and
//! [`conclude`] reads what came back.

use vstd::prelude::*;
use crate::error::FetchError;
use crate::ghsa::{is_batch, Advisory, GhsaResponse};
use crate::json::{json_object_text, object_text};
use crate::query::{build_query, query_text};
use crate::response::{decode_bytes, parse_response};
use crate::window::QueryWindow;

verus! {

/// The address of the advisory API.
pub const ENDPOINT: &'static str = "https://api.github.com/graphql";

/// The value of the `User-Agent` header.
pub const USER_AGENT: &'static str = "reqwest";

/// The value of the `Accept` header: the media type of the API's version.
pub const ACCEPT: &'static str = "application/vnd.github.v4.idl";

/// The value of the `Content-Type` header: the body is JSON.
pub const CONTENT_TYPE: &'static str = "application/json";

/// What stands before the credential in the `Authorization` header.
pub const BEARER: &'static str = "bearer ";

/// The name of the body's only member.
pub const QUERY_MEMBER: &'static str = "query";

/// An HTTP POST, ready to be sent.
#[derive(Debug, Clone, PartialEq, Eq)]
pub struct Request {
    /// Where to send it.
    pub url: String,
    /// The value of the `User-Agent` header.
    pub user_agent: String,
    /// The value of the `Authorization` header. It holds the credential.
    pub authorization: String,
    /// The value of the `Accept` header.
    pub accept: String,
    /// The value of the `Content-Type` header.
    pub content_type: String,
    /// The body: a JSON object.
    pub body: String,
}

impl Request {
    /// Whether this is the request that asks, in the name of `credential`,
    /// for the advisories published since `window`.
    pub open spec fn asks(&self, credential: Seq<char>, window: Seq<char>) -> bool {
        &&& self.url@ == ENDPOINT@
        &&& self.user_agent@ == USER_AGENT@
        &&& self.authorization@ == BEARER@ + credential
        &&& self.accept@ == ACCEPT@
        &&& self.content_type@ == CONTENT_TYPE@
        &&& self.body@ == json_object_text(QUERY_MEMBER@, query_text(window))
    }
}

/// The request of a retrieval, or why there is none: without a credential
/// nothing is to be sent.
pub fn prepare(credential: Option<&str>, window: &QueryWindow) -> (r: Result<Request, FetchError>)
    ensures
        match credential {
            None => r == Err::<Request, FetchError>(FetchError::Configuration),
            Some(secret) => r matches Ok(request) && request.asks(secret@, window@),
        },
{
    match credential {
        None => Err(FetchError::Configuration),
        Some(secret) => {
            let query = build_query(window);
            let mut authorization = String::from_str(BEARER);
            authorization.append(secret);
            Ok(
                Request {
                    url: String::from_str(ENDPOINT),
                    user_agent: String::from_str(USER_AGENT),
                    authorization,
                    accept: String::from_str(ACCEPT),
                    content_type: String::from_str(CONTENT_TYPE),
                    body: object_text(QUERY_MEMBER, query.as_str()),
                },
            )
        },
    }
}

/// What a retrieval amounts to, given the body of the reply, or `None`
/// where the request brought no reply.
pub open spec fn outcome_of(reply: Option<Seq<u8>>) -> Result<Seq<Advisory>, FetchError> {
    match reply {
        None => Err(FetchError::Transport),
        Some(bytes) => match decode_bytes(bytes) {
            Ok(batch) => Ok(batch),
            Err(e) => Err(FetchError::Deserialization(e)),
        },
    }
}

/// A retrieval's result, with the advisories taken by their view.
pub open spec fn fetched(r: Result<GhsaResponse, FetchError>) -> Result<Seq<Advisory>, FetchError> {
    match r {
        Ok(response) => Ok(response@),
        Err(e) => Err(e),
    }
}

/// The bytes of a reply, where there is one.
pub open spec fn reply_bytes(reply: Option<&[u8]>) -> Option<Seq<u8>> {
    match reply {
        Some(bytes) => Some(bytes@),
        None => None,
    }
}

/// Ends a retrieval. `reply` is the body that the request brought, whatever
/// the status that came with it, or `None` where sending failed. What is
/// returned is at most one page, and every advisory in it has an identifier.
pub fn conclude(reply: Option<&[u8]>) -> (r: Result<GhsaResponse, FetchError>)
    ensures
        fetched(r) == outcome_of(reply_bytes(reply)),
        r matches Ok(response) ==> is_batch(response@),
{
    match reply {
        None => Err(FetchError::Transport),
        Some(bytes) => match parse_response(bytes) {
            Ok(response) => Ok(response),
            Err(e) => Err(FetchError::Deserialization(e)),
        },
    }
}

} // verus!
