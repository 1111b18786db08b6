use ghsa_feed::error::{FetchError, ResponseError};
use ghsa_feed::query::build_query;
use ghsa_feed::request::{conclude, prepare};
use ghsa_feed::window::QueryWindow;

// 2024-05-02 00:00:00 UTC
const NOW: i64 = 1_714_608_000;

fn expected_query(date: &str) -> String {
    format!(
        r#"
query {{ 
  securityAdvisories(first: 10, publishedSince: "{}T00:00:00") {{
    edges {{
      node {{
       	ghsaId
        summary
        severity
        cvss {{
          vectorString
        }}
      }}
    }}
  }}
}}
"#,
        date
    )
}

#[test]
fn the_query_carries_the_window() {
    let window = QueryWindow::at(NOW).unwrap();
    assert_eq!(window.as_str(), "2024-05-01T00:00:00");
    let query = build_query(&window);
    assert_eq!(query, expected_query("2024-05-01"));
    assert_eq!(query.matches("publishedSince").count(), 1);
    assert_eq!(query.find("publishedSince"), Some(42));
    assert!(query.contains("publishedSince: \"2024-05-01T00:00:00\")"));
    assert!(query.contains("first: 10,"));
}

#[test]
fn the_query_asks_for_the_fields_that_a_reply_is_read_for() {
    let query = build_query(&QueryWindow::at(NOW).unwrap());
    for field in ["securityAdvisories", "edges", "node", "ghsaId", "summary", "severity", "cvss", "vectorString"] {
        assert!(query.contains(field), "{}", field);
    }
}

#[test]
fn without_a_credential_there_is_no_request() {
    let window = QueryWindow::at(NOW).unwrap();
    match prepare(None, &window) {
        Err(e) => assert_eq!(e, FetchError::Configuration),
        Ok(_) => panic!("a request without a credential"),
    }
}

#[test]
fn the_request_has_its_headers_and_the_address() {
    let window = QueryWindow::at(NOW).unwrap();
    let request = prepare(Some("s3cr3t"), &window).unwrap();
    assert_eq!(request.url, "https://api.github.com/graphql");
    assert_eq!(request.user_agent, "reqwest");
    assert_eq!(request.authorization, "bearer s3cr3t");
    assert_eq!(request.accept, "application/vnd.github.v4.idl");
    assert_eq!(request.content_type, "application/json");
}

#[test]
fn an_empty_credential_is_still_a_credential() {
    let window = QueryWindow::at(NOW).unwrap();
    let request = prepare(Some(""), &window).unwrap();
    assert_eq!(request.authorization, "bearer ");
}

#[test]
fn the_body_is_an_object_with_the_query_alone() {
    let window = QueryWindow::at(NOW).unwrap();
    let request = prepare(Some("t"), &window).unwrap();
    let expected = "{\"query\":\"\\nquery { \\n  securityAdvisories(first: 10, publishedSince: \\\"2024-05-01T00:00:00\\\") {\\n    edges {\\n      node {\\n       \\tghsaId\\n        summary\\n        severity\\n        cvss {\\n          vectorString\\n        }\\n      }\\n    }\\n  }\\n}\\n\"}";
    assert_eq!(request.body, expected);
    let value: serde_json::Value = serde_json::from_str(&request.body).unwrap();
    let members = value.as_object().unwrap();
    assert_eq!(members.len(), 1);
    assert_eq!(members.get("query").and_then(|q| q.as_str()), Some(build_query(&window).as_str()));
    assert!(!request.body.contains('\n'));
}

#[test]
fn the_credential_stands_in_the_authorization_alone() {
    let window = QueryWindow::at(NOW).unwrap();
    let request = prepare(Some("s3cr3t-t0ken"), &window).unwrap();
    assert!(!request.url.contains("s3cr3t-t0ken"));
    assert!(!request.user_agent.contains("s3cr3t-t0ken"));
    assert!(!request.accept.contains("s3cr3t-t0ken"));
    assert!(!request.body.contains("s3cr3t-t0ken"));
}

#[test]
fn no_reply_is_a_transport_error() {
    assert_eq!(conclude(None), Err(FetchError::Transport));
}

#[test]
fn a_reply_of_another_shape_is_a_deserialization_error() {
    assert_eq!(
        conclude(Some(b"Service Unavailable")),
        Err(FetchError::Deserialization(ResponseError::Malformed))
    );
    assert_eq!(
        conclude(Some(b"{\"message\":\"Bad credentials\"}")),
        Err(FetchError::Deserialization(ResponseError::Missing(ghsa_feed::error::Field::Data)))
    );
}

#[test]
fn a_reply_of_more_than_a_page_is_a_deserialization_error() {
    let node = "{\"node\":{\"ghsaId\":\"g\",\"summary\":\"x\",\"severity\":\"LOW\",\"cvss\":{}}}";
    let body = format!(
        "{{\"data\":{{\"securityAdvisories\":{{\"edges\":[{}]}}}}}}",
        vec![node; 11].join(",")
    );
    assert_eq!(
        conclude(Some(body.as_bytes())),
        Err(FetchError::Deserialization(ResponseError::PageExceeded))
    );
    let body = format!(
        "{{\"data\":{{\"securityAdvisories\":{{\"edges\":[{}]}}}}}}",
        vec![node; 10].join(",")
    );
    assert_eq!(conclude(Some(body.as_bytes())).unwrap().len(), 10);
}

#[test]
fn a_reply_with_advisories_ends_the_retrieval_well() {
    let body = b"{\"data\":{\"securityAdvisories\":{\"edges\":[{\"node\":{\"ghsaId\":\"GHSA-1\",\"summary\":\"x\",\"severity\":\"LOW\",\"cvss\":{\"vectorString\":null}}}]}}}";
    let response = conclude(Some(body)).unwrap();
    assert_eq!(response.len(), 1);
    assert_eq!(response.data.security_advisories.edges[0].node.ghsa_id, "GHSA-1");
}
