//! From the bytes of a reply to the advisories that it holds.
//!
//! A reply has the shape
//! `{"data": {"securityAdvisories": {"edges": [{"node": N}, ..]}}}`, where
//! each `N` is
//! `{"ghsaId": s, "summary": s, "severity": s, "cvss": {"vectorString": s or null}}`.
//! Members with other names are passed over. An identifier is not empty,
//! and there are no more entries than one page holds.

use vstd::prelude::*;
use crate::error::{Field, ResponseError};
use crate::ghsa::{
    is_batch, Advisory, Cvss, Data, Edge, GhsaResponse, Node, SecurityAdvisories, PAGE_SIZE,
};
use crate::json::{json_model, json_parsed, member, member_of, models_of, parse, JsonModel};
use crate::schema::{
    CVSS, DATA, EDGES, GHSA_ID, NODE, SECURITY_ADVISORIES, SEVERITY, SUMMARY, VECTOR_STRING,
};

verus! {

/// The member `key` of the object `parent`, which has to be an object itself.
pub open spec fn object_at(parent: JsonModel, key: Seq<char>, field: Field) -> Result<
    JsonModel,
    ResponseError,
> {
    match member_of(parent, key) {
        None => Err(ResponseError::Missing(field)),
        Some(m) => if m is Object {
            Ok(m)
        } else {
            Err(ResponseError::Mistyped(field))
        },
    }
}

/// The member `key` of the object `parent`, which has to be a string.
pub open spec fn text_at(parent: JsonModel, key: Seq<char>, field: Field) -> Result<
    Seq<char>,
    ResponseError,
> {
    match member_of(parent, key) {
        None => Err(ResponseError::Missing(field)),
        Some(JsonModel::Text(s)) => Ok(s),
        Some(_) => Err(ResponseError::Mistyped(field)),
    }
}

/// The vector string of the object `cvss`: none where the member is absent
/// and where it is `null`.
pub open spec fn decode_cvss(cvss: JsonModel) -> Result<Option<Seq<char>>, ResponseError> {
    match member_of(cvss, VECTOR_STRING@) {
        None => Ok(None),
        Some(JsonModel::Null) => Ok(None),
        Some(JsonModel::Text(s)) => Ok(Some(s)),
        Some(_) => Err(ResponseError::Mistyped(Field::VectorString)),
    }
}

/// The identifier of the object `node`: a string that is not empty.
pub open spec fn decode_id(node: JsonModel) -> Result<Seq<char>, ResponseError> {
    match text_at(node, GHSA_ID@, Field::GhsaId) {
        Err(e) => Err(e),
        Ok(id) => if id.len() == 0 {
            Err(ResponseError::Mistyped(Field::GhsaId))
        } else {
            Ok(id)
        },
    }
}

/// The advisory that the object `node` holds. Of several faults the one
/// reported is the first in the order `cvss`, `ghsaId`, `severity`, `summary`.
pub open spec fn decode_node(node: JsonModel) -> Result<Advisory, ResponseError> {
    match object_at(node, CVSS@, Field::Cvss) {
        Err(e) => Err(e),
        Ok(cvss) => match decode_cvss(cvss) {
            Err(e) => Err(e),
            Ok(cvss_vector) => match decode_id(node) {
                Err(e) => Err(e),
                Ok(id) => match text_at(node, SEVERITY@, Field::Severity) {
                    Err(e) => Err(e),
                    Ok(severity) => match text_at(node, SUMMARY@, Field::Summary) {
                        Err(e) => Err(e),
                        Ok(summary) => Ok(Advisory { id, summary, severity, cvss_vector }),
                    },
                },
            },
        },
    }
}

/// The advisory of one entry of `edges`.
pub open spec fn decode_edge(edge: JsonModel) -> Result<Advisory, ResponseError> {
    if !(edge is Object) {
        Err(ResponseError::Mistyped(Field::Edge))
    } else {
        match object_at(edge, NODE@, Field::Node) {
            Err(e) => Err(e),
            Ok(node) => decode_node(node),
        }
    }
}

/// The advisories of all entries, in their order; where entries are at
/// fault, the error of the first of them.
pub open spec fn decode_edges(edges: Seq<JsonModel>) -> Result<Seq<Advisory>, ResponseError>
    decreases edges.len(),
{
    if edges.len() == 0 {
        Ok(Seq::empty())
    } else {
        match decode_edges(edges.drop_last()) {
            Err(e) => Err(e),
            Ok(before) => match decode_edge(edges.last()) {
                Err(e) => Err(e),
                Ok(advisory) => Ok(before.push(advisory)),
            },
        }
    }
}

/// The entries of `edges` in a reply.
pub open spec fn edges_of(document: JsonModel) -> Result<Seq<JsonModel>, ResponseError> {
    if !(document is Object) {
        Err(ResponseError::Mistyped(Field::Document))
    } else {
        match object_at(document, DATA@, Field::Data) {
            Err(e) => Err(e),
            Ok(data) => match object_at(data, SECURITY_ADVISORIES@, Field::SecurityAdvisories) {
                Err(e) => Err(e),
                Ok(advisories) => match member_of(advisories, EDGES@) {
                    None => Err(ResponseError::Missing(Field::Edges)),
                    Some(JsonModel::Array(edges)) => Ok(edges),
                    Some(_) => Err(ResponseError::Mistyped(Field::Edges)),
                },
            },
        }
    }
}

/// The advisories that a reply holds. A reply with more entries than one
/// page holds is refused, whatever the entries are.
pub open spec fn decode_document(document: JsonModel) -> Result<Seq<Advisory>, ResponseError> {
    match edges_of(document) {
        Err(e) => Err(e),
        Ok(edges) => if edges.len() > PAGE_SIZE {
            Err(ResponseError::PageExceeded)
        } else {
            decode_edges(edges)
        },
    }
}

/// The advisories that the bytes of a reply hold.
pub open spec fn decode_bytes(bytes: Seq<u8>) -> Result<Seq<Advisory>, ResponseError> {
    match json_parsed(bytes) {
        None => Err(ResponseError::Malformed),
        Some(document) => decode_document(document),
    }
}

/// A result of decoding, with the reply taken by its view.
pub open spec fn batch_of(r: Result<GhsaResponse, ResponseError>) -> Result<
    Seq<Advisory>,
    ResponseError,
> {
    match r {
        Ok(response) => Ok(response@),
        Err(e) => Err(e),
    }
}

fn read_object<'a>(parent: &'a serde_json::Value, key: &str, field: Field) -> (r: Result<
    &'a serde_json::Value,
    ResponseError,
>)
    ensures
        match r {
            Ok(m) => object_at(json_model(*parent), key@, field) == Ok::<
                JsonModel,
                ResponseError,
            >(json_model(*m)),
            Err(e) => object_at(json_model(*parent), key@, field) == Err::<
                JsonModel,
                ResponseError,
            >(e),
        },
{
    match member(parent, key) {
        None => Err(ResponseError::Missing(field)),
        Some(m) => if m.is_object() {
            Ok(m)
        } else {
            Err(ResponseError::Mistyped(field))
        },
    }
}

fn read_text(parent: &serde_json::Value, key: &str, field: Field) -> (r: Result<
    String,
    ResponseError,
>)
    ensures
        match r {
            Ok(s) => text_at(json_model(*parent), key@, field) == Ok::<Seq<char>, ResponseError>(
                s@,
            ),
            Err(e) => text_at(json_model(*parent), key@, field) == Err::<
                Seq<char>,
                ResponseError,
            >(e),
        },
{
    match member(parent, key) {
        None => Err(ResponseError::Missing(field)),
        Some(m) => match m.as_str() {
            Some(s) => Ok(s.to_owned()),
            None => Err(ResponseError::Mistyped(field)),
        },
    }
}

fn read_cvss(cvss: &serde_json::Value) -> (r: Result<Cvss, ResponseError>)
    ensures
        match r {
            Ok(c) => decode_cvss(json_model(*cvss)) == Ok::<Option<Seq<char>>, ResponseError>(c@),
            Err(e) => decode_cvss(json_model(*cvss)) == Err::<Option<Seq<char>>, ResponseError>(
                e,
            ),
        },
{
    match member(cvss, VECTOR_STRING) {
        None => Ok(Cvss { vector_string: None }),
        Some(m) => if m.is_null() {
            Ok(Cvss { vector_string: None })
        } else {
            match m.as_str() {
                Some(s) => Ok(Cvss { vector_string: Some(s.to_owned()) }),
                None => Err(ResponseError::Mistyped(Field::VectorString)),
            }
        },
    }
}

fn read_node(node: &serde_json::Value) -> (r: Result<Node, ResponseError>)
    ensures
        match r {
            Ok(n) => decode_node(json_model(*node)) == Ok::<Advisory, ResponseError>(n@),
            Err(e) => decode_node(json_model(*node)) == Err::<Advisory, ResponseError>(e),
        },
{
    let cvss = match read_object(node, CVSS, Field::Cvss) {
        Ok(m) => match read_cvss(m) {
            Ok(c) => c,
            Err(e) => { return Err(e); },
        },
        Err(e) => { return Err(e); },
    };
    let ghsa_id = match read_text(node, GHSA_ID, Field::GhsaId) {
        Ok(s) => s,
        Err(e) => { return Err(e); },
    };
    if ghsa_id.as_str().is_empty() {
        return Err(ResponseError::Mistyped(Field::GhsaId));
    }
    let severity = match read_text(node, SEVERITY, Field::Severity) {
        Ok(s) => s,
        Err(e) => { return Err(e); },
    };
    let summary = match read_text(node, SUMMARY, Field::Summary) {
        Ok(s) => s,
        Err(e) => { return Err(e); },
    };
    Ok(Node { cvss, ghsa_id, severity, summary })
}

fn read_edge(edge: &serde_json::Value) -> (r: Result<Edge, ResponseError>)
    ensures
        match r {
            Ok(e) => decode_edge(json_model(*edge)) == Ok::<Advisory, ResponseError>(e@),
            Err(e) => decode_edge(json_model(*edge)) == Err::<Advisory, ResponseError>(e),
        },
{
    if !edge.is_object() {
        return Err(ResponseError::Mistyped(Field::Edge));
    }
    match read_object(edge, NODE, Field::Node) {
        Err(e) => Err(e),
        Ok(m) => match read_node(m) {
            Err(e) => Err(e),
            Ok(node) => Ok(Edge { node }),
        },
    }
}

fn read_edges(edges: &Vec<serde_json::Value>) -> (r: Result<Vec<Edge>, ResponseError>)
    ensures
        match r {
            Ok(out) => decode_edges(models_of(edges@)) == Ok::<Seq<Advisory>, ResponseError>(
                out@.map_values(|e: Edge| e@),
            ),
            Err(e) => decode_edges(models_of(edges@)) == Err::<Seq<Advisory>, ResponseError>(e),
        },
{
    let mut out: Vec<Edge> = Vec::new();
    let mut i: usize = 0;
    assert(models_of(edges@).take(0).len() == 0);
    assert(out@.map_values(|e: Edge| e@) == Seq::<Advisory>::empty());
    while i < edges.len()
        invariant
            i <= edges.len(),
            decode_edges(models_of(edges@).take(i as int)) == Ok::<Seq<Advisory>, ResponseError>(
                out@.map_values(|e: Edge| e@),
            ),
        decreases edges.len() - i,
    {
        let ghost all = models_of(edges@);
        proof {
            assert(all.take(i + 1).drop_last() == all.take(i as int));
            assert(all.take(i + 1).last() == json_model(edges@[i as int]));
        }
        match read_edge(&edges[i]) {
            Err(e) => {
                proof {
                    lemma_fault_stays(all, i + 1);
                }
                return Err(e);
            },
            Ok(edge) => {
                let ghost before = out@.map_values(|e: Edge| e@);
                out.push(edge);
                assert(out@.map_values(|e: Edge| e@) == before.push(edge@));
            },
        }
        i += 1;
    }
    assert(models_of(edges@).take(i as int) == models_of(edges@));
    Ok(out)
}

/// Once the first `n` entries are at fault, all of them are, with the same
/// error.
proof fn lemma_fault_stays(edges: Seq<JsonModel>, n: int)
    requires
        0 <= n <= edges.len(),
        decode_edges(edges.take(n)) is Err,
    ensures
        decode_edges(edges) == decode_edges(edges.take(n)),
    decreases edges.len() - n,
{
    if n == edges.len() {
        assert(edges.take(n) == edges);
    } else {
        assert(edges.take(n + 1).drop_last() == edges.take(n));
        lemma_fault_stays(edges, n + 1);
    }
}

/// The advisories that a JSON document holds, in the order in which it lists
/// them; an error where the document has not the shape of a reply. What is
/// returned is at most one page, and every advisory in it has an identifier.
pub fn decode_response(document: &serde_json::Value) -> (r: Result<GhsaResponse, ResponseError>)
    ensures
        batch_of(r) == decode_document(json_model(*document)),
        r matches Ok(response) ==> is_batch(response@),
{
    proof {
        lemma_decoded_is_batch(json_model(*document));
    }
    if !document.is_object() {
        return Err(ResponseError::Mistyped(Field::Document));
    }
    let data = match read_object(document, DATA, Field::Data) {
        Ok(m) => m,
        Err(e) => { return Err(e); },
    };
    let advisories = match read_object(data, SECURITY_ADVISORIES, Field::SecurityAdvisories) {
        Ok(m) => m,
        Err(e) => { return Err(e); },
    };
    let edges = match member(advisories, EDGES) {
        None => { return Err(ResponseError::Missing(Field::Edges)); },
        Some(m) => match m.as_array() {
            None => { return Err(ResponseError::Mistyped(Field::Edges)); },
            Some(items) => {
                if items.len() > PAGE_SIZE {
                    return Err(ResponseError::PageExceeded);
                }
                match read_edges(items) {
                    Ok(edges) => edges,
                    Err(e) => { return Err(e); },
                }
            },
        },
    };
    Ok(GhsaResponse { data: Data { security_advisories: SecurityAdvisories { edges } } })
}

/// The advisories that the bytes of a reply hold: `Malformed` where the
/// bytes are not one JSON document, else what [`decode_response`] gives for
/// that document. No advisory is returned beside an error.
pub fn parse_response(bytes: &[u8]) -> (r: Result<GhsaResponse, ResponseError>)
    ensures
        batch_of(r) == decode_bytes(bytes@),
        r matches Ok(response) ==> is_batch(response@),
{
    match parse(bytes) {
        Err(_) => Err(ResponseError::Malformed),
        Ok(document) => decode_response(&document),
    }
}

/// The `cvss` object of an advisory. Where there is no vector, the member
/// is `null` if `spell_null`, and left out if not.
pub open spec fn cvss_json(vector: Option<Seq<char>>, spell_null: bool) -> JsonModel {
    match vector {
        Some(s) => JsonModel::Object(map![VECTOR_STRING@ => JsonModel::Text(s)]),
        None => if spell_null {
            JsonModel::Object(map![VECTOR_STRING@ => JsonModel::Null])
        } else {
            JsonModel::Object(Map::empty())
        },
    }
}

/// The entry of `edges` that holds `advisory`.
pub open spec fn edge_json(advisory: Advisory, spell_null: bool) -> JsonModel {
    JsonModel::Object(
        map![NODE@ => JsonModel::Object(
            map![
                GHSA_ID@ => JsonModel::Text(advisory.id),
                SUMMARY@ => JsonModel::Text(advisory.summary),
                SEVERITY@ => JsonModel::Text(advisory.severity),
                CVSS@ => cvss_json(advisory.cvss_vector, spell_null),
            ],
        )],
    )
}

/// The entries of `edges` that hold `batch`, in its order; the entry at `i`
/// spells a missing vector as `null` where `spell_null(i)`.
pub open spec fn edges_json(batch: Seq<Advisory>, spell_null: spec_fn(int) -> bool) -> Seq<
    JsonModel,
> {
    Seq::new(batch.len(), |i: int| edge_json(batch[i], spell_null(i)))
}

/// The reply that holds `batch`.
pub open spec fn reply_json(batch: Seq<Advisory>, spell_null: spec_fn(int) -> bool) -> JsonModel {
    JsonModel::Object(
        map![DATA@ => JsonModel::Object(
            map![SECURITY_ADVISORIES@ => JsonModel::Object(
                map![EDGES@ => JsonModel::Array(edges_json(batch, spell_null))],
            )],
        )],
    )
}

/// An entry that holds an advisory gives that advisory back: the vector is
/// there where the entry has one, and absent where the entry has `null` or
/// nothing.
pub proof fn lemma_edge_round_trip(advisory: Advisory, spell_null: bool)
    requires
        advisory.well_formed(),
    ensures
        decode_edge(edge_json(advisory, spell_null)) == Ok::<Advisory, ResponseError>(advisory),
{
    reveal_strlit("ghsaId");
    reveal_strlit("summary");
    reveal_strlit("severity");
    reveal_strlit("cvss");
    let node = member_of(edge_json(advisory, spell_null), NODE@).unwrap();
    let cvss = cvss_json(advisory.cvss_vector, spell_null);
    assert("ghsaId"@.len() == 6 && "summary"@.len() == 7 && "severity"@.len() == 8 && "cvss"@.len()
        == 4);
    assert(member_of(node, CVSS@) == Some(cvss));
    assert(decode_cvss(cvss) == Ok::<Option<Seq<char>>, ResponseError>(advisory.cvss_vector));
    assert(member_of(node, GHSA_ID@) == Some(JsonModel::Text(advisory.id)));
    assert(member_of(node, SEVERITY@) == Some(JsonModel::Text(advisory.severity)));
    assert(member_of(node, SUMMARY@) == Some(JsonModel::Text(advisory.summary)));
}

/// The entries are decoded one by one and in their order: there are as many
/// advisories as entries, each that of the entry at its place, and an error
/// comes exactly where an entry is at fault.
pub proof fn lemma_edges_decode_in_order(edges: Seq<JsonModel>)
    ensures
        decode_edges(edges) is Ok <==> forall|i: int|
            0 <= i < edges.len() ==> (#[trigger] decode_edge(edges[i])) is Ok,
        decode_edges(edges) matches Ok(batch) ==> {
            &&& batch.len() == edges.len()
            &&& forall|i: int|
                0 <= i < edges.len() ==> #[trigger] decode_edge(edges[i]) == Ok::<
                    Advisory,
                    ResponseError,
                >(batch[i])
        },
    decreases edges.len(),
{
    if edges.len() > 0 {
        let before = edges.drop_last();
        lemma_edges_decode_in_order(before);
        assert forall|i: int| 0 <= i < before.len() implies before[i] == edges[i] by {}
        if decode_edges(before) is Ok && decode_edge(edges.last()) is Ok {
            assert forall|i: int| 0 <= i < edges.len() implies (#[trigger] decode_edge(
                edges[i],
            )) is Ok by {
                if i < before.len() {
                    assert(decode_edge(before[i]) is Ok);
                }
            }
        } else if decode_edges(before) is Err {
            let i = choose|i: int| 0 <= i < before.len() && !(decode_edge(before[i]) is Ok);
            assert(!(decode_edge(edges[i]) is Ok));
        } else {
            assert(!(decode_edge(edges[edges.len() - 1]) is Ok));
        }
        if let Ok(batch) = decode_edges(edges) {
            let first = decode_edges(before).unwrap();
            assert forall|i: int| 0 <= i < edges.len() implies #[trigger] decode_edge(edges[i])
                == Ok::<Advisory, ResponseError>(batch[i]) by {
                if i < before.len() {
                    assert(decode_edge(before[i]) == Ok::<Advisory, ResponseError>(first[i]));
                }
            }
        }
    }
}

/// What a reply holds is a batch: at most one page of advisories, each with
/// an identifier.
pub proof fn lemma_decoded_is_batch(document: JsonModel)
    ensures
        decode_document(document) matches Ok(batch) ==> is_batch(batch),
{
    if let Ok(batch) = decode_document(document) {
        let edges = edges_of(document).unwrap();
        lemma_edges_decode_in_order(edges);
        assert forall|i: int| 0 <= i < batch.len() implies (#[trigger] batch[i]).well_formed() by {
            assert(decode_edge(edges[i]) == Ok::<Advisory, ResponseError>(batch[i]));
        }
    }
}

/// A reply that holds a batch gives it back: as many advisories, in the
/// same order, each vector there or absent as in the reply.
pub proof fn lemma_reply_round_trip(batch: Seq<Advisory>, spell_null: spec_fn(int) -> bool)
    requires
        is_batch(batch),
    ensures
        decode_document(reply_json(batch, spell_null)) == Ok::<Seq<Advisory>, ResponseError>(
            batch,
        ),
{
    let edges = edges_json(batch, spell_null);
    assert(edges_of(reply_json(batch, spell_null)) == Ok::<Seq<JsonModel>, ResponseError>(edges));
    assert forall|i: int| 0 <= i < edges.len() implies #[trigger] decode_edge(edges[i]) == Ok::<
        Advisory,
        ResponseError,
    >(batch[i]) by {
        lemma_edge_round_trip(batch[i], spell_null(i));
    }
    lemma_edges_decode_in_order(edges);
    let decoded = decode_edges(edges).unwrap();
    assert forall|i: int| 0 <= i < batch.len() implies decoded[i] == batch[i] by {
        assert(decode_edge(edges[i]) == Ok::<Advisory, ResponseError>(decoded[i]));
    }
    assert(decoded =~= batch);
}

/// Bytes that spell a reply holding a batch give the batch back.
pub proof fn lemma_reply_bytes_round_trip(
    bytes: Seq<u8>,
    batch: Seq<Advisory>,
    spell_null: spec_fn(int) -> bool,
)
    requires
        is_batch(batch),
    ensures
        json_parsed(bytes) == Some(reply_json(batch, spell_null)) ==> decode_bytes(bytes) == Ok::<
            Seq<Advisory>,
            ResponseError,
        >(batch),
{
    lemma_reply_round_trip(batch, spell_null);
}

/// A reply without entries holds no advisories, and is no error.
pub proof fn lemma_no_edges_no_advisories(document: JsonModel)
    requires
        edges_of(document) == Ok::<Seq<JsonModel>, ResponseError>(Seq::empty()),
    ensures
        decode_document(document) == Ok::<Seq<Advisory>, ResponseError>(Seq::empty()),
{
}

} // verus!
