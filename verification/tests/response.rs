use ghsa_feed::error::{Field, ResponseError};
use ghsa_feed::response::{decode_response, parse_response};
use ghsa_feed::GhsaResponse;

fn node_text(id: &str, vector: &str) -> String {
    format!(
        "{{\"node\":{{\"ghsaId\":\"{}\",\"summary\":\"s-{}\",\"severity\":\"LOW\",\"cvss\":{{\"vectorString\":{}}}}}}}",
        id, id, vector
    )
}

fn reply_text(edges: &[String]) -> String {
    format!("{{\"data\":{{\"securityAdvisories\":{{\"edges\":[{}]}}}}}}", edges.join(","))
}

fn parsed(text: &str) -> Result<GhsaResponse, ResponseError> {
    parse_response(text.as_bytes())
}

#[test]
fn one_advisory_with_every_field() {
    let text = "{\"data\":{\"securityAdvisories\":{\"edges\":[{\"node\":{\"ghsaId\":\"GHSA-xxxx-yyyy-zzzz\",\"summary\":\"Example flaw\",\"severity\":\"HIGH\",\"cvss\":{\"vectorString\":\"CVSS:3.1/AV:N/AC:L\"}}}]}}}";
    let response = parsed(text).unwrap();
    let edges = &response.data.security_advisories.edges;
    assert_eq!(edges.len(), 1);
    let node = &edges[0].node;
    assert_eq!(node.ghsa_id, "GHSA-xxxx-yyyy-zzzz");
    assert_eq!(node.summary, "Example flaw");
    assert_eq!(node.severity, "HIGH");
    assert_eq!(node.cvss.vector_string, Some("CVSS:3.1/AV:N/AC:L".to_string()));
}

#[test]
fn null_vector_is_absent_not_empty() {
    let text = "{\"data\":{\"securityAdvisories\":{\"edges\":[{\"node\":{\"ghsaId\":\"GHSA-xxxx-yyyy-zzzz\",\"summary\":\"Example flaw\",\"severity\":\"HIGH\",\"cvss\":{\"vectorString\":null}}}]}}}";
    let response = parsed(text).unwrap();
    let node = &response.data.security_advisories.edges[0].node;
    assert_eq!(node.cvss.vector_string, None);
    assert_ne!(node.cvss.vector_string, Some(String::new()));
    assert_eq!(node.ghsa_id, "GHSA-xxxx-yyyy-zzzz");
    assert_eq!(node.summary, "Example flaw");
    assert_eq!(node.severity, "HIGH");
}

#[test]
fn vector_member_left_out_is_absent() {
    let text = "{\"data\":{\"securityAdvisories\":{\"edges\":[{\"node\":{\"ghsaId\":\"a\",\"summary\":\"\",\"severity\":\"LOW\",\"cvss\":{}}}]}}}";
    let response = parsed(text).unwrap();
    let node = &response.data.security_advisories.edges[0].node;
    assert_eq!(node.cvss.vector_string, None);
    assert_eq!(node.summary, "");
}

#[test]
fn empty_vector_string_stays_a_string() {
    let response = parsed(&reply_text(&[node_text("a", "\"\"")])).unwrap();
    let node = &response.data.security_advisories.edges[0].node;
    assert_eq!(node.cvss.vector_string, Some(String::new()));
}

#[test]
fn missing_identifier_is_an_error() {
    let text = "{\"data\":{\"securityAdvisories\":{\"edges\":[{\"node\":{\"summary\":\"Example flaw\",\"severity\":\"HIGH\",\"cvss\":{\"vectorString\":null}}}]}}}";
    assert_eq!(parsed(text), Err(ResponseError::Missing(Field::GhsaId)));
}

#[test]
fn a_fault_in_a_later_edge_leaves_no_batch() {
    let bad = "{\"node\":{\"summary\":\"s\",\"severity\":\"LOW\",\"cvss\":{}}}".to_string();
    let text = reply_text(&[node_text("a", "null"), node_text("b", "\"V\""), bad]);
    assert_eq!(parsed(&text), Err(ResponseError::Missing(Field::GhsaId)));
}

#[test]
fn the_first_faulty_edge_gives_the_error() {
    let no_summary = "{\"node\":{\"ghsaId\":\"a\",\"severity\":\"LOW\",\"cvss\":{}}}".to_string();
    let no_node = "{}".to_string();
    let text = reply_text(&[node_text("a", "null"), no_summary.clone(), no_node.clone()]);
    assert_eq!(parsed(&text), Err(ResponseError::Missing(Field::Summary)));
    let text = reply_text(&[no_node, no_summary]);
    assert_eq!(parsed(&text), Err(ResponseError::Missing(Field::Node)));
}

#[test]
fn no_edges_is_an_empty_batch() {
    let response = parsed("{\"data\":{\"securityAdvisories\":{\"edges\":[]}}}").unwrap();
    assert!(response.data.security_advisories.edges.is_empty());
    assert_eq!(response.len(), 0);
}

#[test]
fn edges_keep_their_order_and_their_vectors() {
    let mut edges = Vec::new();
    for i in 0..10 {
        let vector = if i % 3 == 0 { "null".to_string() } else { format!("\"CVSS:{}\"", i) };
        edges.push(node_text(&format!("GHSA-{}", i), &vector));
    }
    let response = parsed(&reply_text(&edges)).unwrap();
    assert_eq!(response.len(), 10);
    for (i, edge) in response.data.security_advisories.edges.iter().enumerate() {
        assert_eq!(edge.node.ghsa_id, format!("GHSA-{}", i));
        assert_eq!(edge.node.summary, format!("s-GHSA-{}", i));
        assert_eq!(edge.node.severity, "LOW");
        if i % 3 == 0 {
            assert_eq!(edge.node.cvss.vector_string, None);
        } else {
            assert_eq!(edge.node.cvss.vector_string, Some(format!("CVSS:{}", i)));
        }
    }
}

#[test]
fn a_full_page_is_the_most_that_is_taken() {
    let edges: Vec<String> = (0..10).map(|i| node_text(&format!("g{}", i), "null")).collect();
    assert_eq!(parsed(&reply_text(&edges)).unwrap().len(), ghsa_feed::PAGE_SIZE);
    let edges: Vec<String> = (0..9).map(|i| node_text(&format!("g{}", i), "null")).collect();
    assert_eq!(parsed(&reply_text(&edges)).unwrap().len(), 9);
}

#[test]
fn more_than_a_page_is_refused() {
    let edges: Vec<String> = (0..11).map(|i| node_text(&format!("g{}", i), "null")).collect();
    assert_eq!(parsed(&reply_text(&edges)), Err(ResponseError::PageExceeded));
    let edges: Vec<String> = (0..25).map(|i| node_text(&format!("g{}", i), "\"v\"")).collect();
    assert_eq!(parsed(&reply_text(&edges)), Err(ResponseError::PageExceeded));
}

#[test]
fn more_than_a_page_is_refused_before_its_entries_are_read() {
    let mut edges: Vec<String> = (0..10).map(|i| node_text(&format!("g{}", i), "null")).collect();
    edges.insert(0, "{}".to_string());
    assert_eq!(parsed(&reply_text(&edges)), Err(ResponseError::PageExceeded));
    edges.pop();
    assert_eq!(parsed(&reply_text(&edges)), Err(ResponseError::Missing(Field::Node)));
}

#[test]
fn an_empty_identifier_is_refused() {
    assert_eq!(
        parsed(&reply_text(&[node_text("", "null")])),
        Err(ResponseError::Mistyped(Field::GhsaId))
    );
    let text = reply_text(&[node_text("a", "null"), node_text("", "\"v\"")]);
    assert_eq!(parsed(&text), Err(ResponseError::Mistyped(Field::GhsaId)));
    let response = parsed(&reply_text(&[node_text(" ", "null")])).unwrap();
    assert_eq!(response.data.security_advisories.edges[0].node.ghsa_id, " ");
}

#[test]
fn an_empty_identifier_is_told_in_its_turn() {
    let node = |members: &str| reply_text(&[format!("{{\"node\":{{{}}}}}", members)]);
    assert_eq!(
        parsed(&node("\"ghsaId\":\"\",\"summary\":\"b\",\"severity\":\"c\"")),
        Err(ResponseError::Missing(Field::Cvss))
    );
    assert_eq!(
        parsed(&node("\"ghsaId\":\"\",\"summary\":1,\"severity\":2,\"cvss\":{}")),
        Err(ResponseError::Mistyped(Field::GhsaId))
    );
}

#[test]
fn members_with_other_names_are_passed_over() {
    let text = "{\"extensions\":[1,2.5,true],\"data\":{\"securityAdvisories\":{\"pageInfo\":null,\"edges\":[{\"cursor\":\"c\",\"node\":{\"ghsaId\":\"a\",\"summary\":\"b\",\"severity\":\"c\",\"cvss\":{\"score\":7.5,\"vectorString\":\"d\"},\"permalink\":\"e\"}}]}}}";
    let response = parsed(text).unwrap();
    let node = &response.data.security_advisories.edges[0].node;
    assert_eq!(node.ghsa_id, "a");
    assert_eq!(node.summary, "b");
    assert_eq!(node.severity, "c");
    assert_eq!(node.cvss.vector_string, Some("d".to_string()));
}

#[test]
fn escapes_in_strings_are_resolved() {
    let text = reply_text(&[node_text("a\\\"b\\n\\u00e9", "\"x\\\\y\"")]);
    let response = parsed(&text).unwrap();
    let node = &response.data.security_advisories.edges[0].node;
    assert_eq!(node.ghsa_id, "a\"b\n\u{e9}");
    assert_eq!(node.cvss.vector_string, Some("x\\y".to_string()));
}

#[test]
fn bytes_that_are_no_document_are_malformed() {
    assert_eq!(parsed(""), Err(ResponseError::Malformed));
    assert_eq!(parsed("{\"data\":"), Err(ResponseError::Malformed));
    assert_eq!(parsed("{\"data\":{}} trailing"), Err(ResponseError::Malformed));
    assert_eq!(parsed("<html></html>"), Err(ResponseError::Malformed));
    assert_eq!(parse_response(&[0xff, 0xfe]), Err(ResponseError::Malformed));
    assert_eq!(parse_response(b"\"\xff\""), Err(ResponseError::Malformed));
}

#[test]
fn an_error_shaped_reply_is_an_error() {
    let text = "{\"message\":\"Bad credentials\",\"documentation_url\":\"https://docs.github.com/graphql\"}";
    assert_eq!(parsed(text), Err(ResponseError::Missing(Field::Data)));
    let text = "{\"data\":null,\"errors\":[{\"message\":\"boom\"}]}";
    assert_eq!(parsed(text), Err(ResponseError::Mistyped(Field::Data)));
}

#[test]
fn each_missing_member_is_named() {
    assert_eq!(parsed("{}"), Err(ResponseError::Missing(Field::Data)));
    assert_eq!(parsed("{\"data\":{}}"), Err(ResponseError::Missing(Field::SecurityAdvisories)));
    assert_eq!(
        parsed("{\"data\":{\"securityAdvisories\":{}}}"),
        Err(ResponseError::Missing(Field::Edges))
    );
    assert_eq!(parsed(&reply_text(&["{}".to_string()])), Err(ResponseError::Missing(Field::Node)));
    let node = |members: &str| reply_text(&[format!("{{\"node\":{{{}}}}}", members)]);
    assert_eq!(
        parsed(&node("\"ghsaId\":\"a\",\"summary\":\"b\",\"severity\":\"c\"")),
        Err(ResponseError::Missing(Field::Cvss))
    );
    assert_eq!(
        parsed(&node("\"summary\":\"b\",\"severity\":\"c\",\"cvss\":{}")),
        Err(ResponseError::Missing(Field::GhsaId))
    );
    assert_eq!(
        parsed(&node("\"ghsaId\":\"a\",\"summary\":\"b\",\"cvss\":{}")),
        Err(ResponseError::Missing(Field::Severity))
    );
    assert_eq!(
        parsed(&node("\"ghsaId\":\"a\",\"severity\":\"c\",\"cvss\":{}")),
        Err(ResponseError::Missing(Field::Summary))
    );
    assert_eq!(parsed(&node("")), Err(ResponseError::Missing(Field::Cvss)));
}

#[test]
fn each_value_of_a_wrong_kind_is_named() {
    assert_eq!(parsed("[]"), Err(ResponseError::Mistyped(Field::Document)));
    assert_eq!(parsed("null"), Err(ResponseError::Mistyped(Field::Document)));
    assert_eq!(parsed("{\"data\":[]}"), Err(ResponseError::Mistyped(Field::Data)));
    assert_eq!(
        parsed("{\"data\":{\"securityAdvisories\":\"x\"}}"),
        Err(ResponseError::Mistyped(Field::SecurityAdvisories))
    );
    assert_eq!(
        parsed("{\"data\":{\"securityAdvisories\":{\"edges\":{}}}}"),
        Err(ResponseError::Mistyped(Field::Edges))
    );
    assert_eq!(
        parsed("{\"data\":{\"securityAdvisories\":{\"edges\":null}}}"),
        Err(ResponseError::Mistyped(Field::Edges))
    );
    assert_eq!(parsed(&reply_text(&["7".to_string()])), Err(ResponseError::Mistyped(Field::Edge)));
    assert_eq!(
        parsed(&reply_text(&["{\"node\":null}".to_string()])),
        Err(ResponseError::Mistyped(Field::Node))
    );
    let node = |members: &str| reply_text(&[format!("{{\"node\":{{{}}}}}", members)]);
    assert_eq!(
        parsed(&node("\"ghsaId\":\"a\",\"summary\":\"b\",\"severity\":\"c\",\"cvss\":null")),
        Err(ResponseError::Mistyped(Field::Cvss))
    );
    assert_eq!(
        parsed(&node(
            "\"ghsaId\":\"a\",\"summary\":\"b\",\"severity\":\"c\",\"cvss\":{\"vectorString\":3}"
        )),
        Err(ResponseError::Mistyped(Field::VectorString))
    );
    assert_eq!(
        parsed(&node("\"ghsaId\":1,\"summary\":\"b\",\"severity\":\"c\",\"cvss\":{}")),
        Err(ResponseError::Mistyped(Field::GhsaId))
    );
    assert_eq!(
        parsed(&node("\"ghsaId\":\"a\",\"summary\":\"b\",\"severity\":null,\"cvss\":{}")),
        Err(ResponseError::Mistyped(Field::Severity))
    );
    assert_eq!(
        parsed(&node("\"ghsaId\":\"a\",\"summary\":[],\"severity\":\"c\",\"cvss\":{}")),
        Err(ResponseError::Mistyped(Field::Summary))
    );
}

#[test]
fn faults_of_a_node_are_told_in_a_fixed_order() {
    let node = |members: &str| reply_text(&[format!("{{\"node\":{{{}}}}}", members)]);
    assert_eq!(
        parsed(&node("\"ghsaId\":1,\"summary\":2,\"severity\":3,\"cvss\":4")),
        Err(ResponseError::Mistyped(Field::Cvss))
    );
    assert_eq!(
        parsed(&node("\"summary\":2,\"severity\":3,\"cvss\":{}")),
        Err(ResponseError::Missing(Field::GhsaId))
    );
    assert_eq!(
        parsed(&node("\"ghsaId\":\"a\",\"summary\":2,\"severity\":3,\"cvss\":{}")),
        Err(ResponseError::Mistyped(Field::Severity))
    );
}

#[test]
fn a_document_built_by_hand_decodes_like_its_text() {
    let mut cvss = serde_json::Map::new();
    cvss.insert("vectorString".to_string(), serde_json::Value::Null);
    let mut node = serde_json::Map::new();
    node.insert("ghsaId".to_string(), serde_json::Value::String("GHSA-1".to_string()));
    node.insert("summary".to_string(), serde_json::Value::String("sum".to_string()));
    node.insert("severity".to_string(), serde_json::Value::String("MODERATE".to_string()));
    node.insert("cvss".to_string(), serde_json::Value::Object(cvss));
    let mut edge = serde_json::Map::new();
    edge.insert("node".to_string(), serde_json::Value::Object(node));
    let mut advisories = serde_json::Map::new();
    advisories.insert(
        "edges".to_string(),
        serde_json::Value::Array(vec![serde_json::Value::Object(edge)]),
    );
    let mut data = serde_json::Map::new();
    data.insert("securityAdvisories".to_string(), serde_json::Value::Object(advisories));
    let mut document = serde_json::Map::new();
    document.insert("data".to_string(), serde_json::Value::Object(data));
    let document = serde_json::Value::Object(document);

    let response = decode_response(&document).unwrap();
    assert_eq!(response.len(), 1);
    let got = &response.data.security_advisories.edges[0].node;
    assert_eq!(got.ghsa_id, "GHSA-1");
    assert_eq!(got.summary, "sum");
    assert_eq!(got.severity, "MODERATE");
    assert_eq!(got.cvss.vector_string, None);
    assert_eq!(parse_response(document.to_string().as_bytes()), Ok(response));

    assert_eq!(
        decode_response(&serde_json::Value::Bool(true)),
        Err(ResponseError::Mistyped(Field::Document))
    );
    assert_eq!(
        decode_response(&serde_json::Value::Object(serde_json::Map::new())),
        Err(ResponseError::Missing(Field::Data))
    );
}
