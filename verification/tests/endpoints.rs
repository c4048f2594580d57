use std::collections::HashMap;
use trace_store::endpoints::{strip_ansi, Endpoint, EndpointBuilder, ANSI_ESCAPE};

#[test]
fn a_complete_builder_gives_the_request() {
    let mut query = HashMap::new();
    query.insert("page".to_string(), "2".to_string());
    let mut body = serde_json::Map::new();
    body.insert("name".to_string(), serde_json::Value::String("job".to_string()));
    let endpoint = Endpoint::builder()
        .base_url("http://localhost:8080")
        .endpoint("/v1/jobs")
        .method(reqwest::Method::POST)
        .json_body(serde_json::Value::Object(body.clone()))
        .query_params(query.clone())
        .build()
        .ok()
        .unwrap();
    assert_eq!(endpoint.base_url(), "http://localhost:8080");
    assert_eq!(endpoint.endpoint(), "/v1/jobs");
    assert_eq!(*endpoint.method(), reqwest::Method::POST);
    let (json, params) = endpoint.into_body_and_query();
    assert_eq!(json, Some(serde_json::Value::Object(body)));
    assert_eq!(params, Some(query));
}

#[test]
fn the_first_missing_part_is_named() {
    let e = EndpointBuilder::new().build().err().unwrap();
    assert_eq!(e.message(), "Base URL is required");
    let e = EndpointBuilder::new().endpoint("/x").method(reqwest::Method::GET).build().err().unwrap();
    assert_eq!(e.message(), "Base URL is required");
    let e = EndpointBuilder::new().base_url("http://h").method(reqwest::Method::GET).build().err().unwrap();
    assert_eq!(e.message(), "Endpoint is required");
    let e = EndpointBuilder::new().base_url("http://h").endpoint("/x").build().err().unwrap();
    assert_eq!(e.message(), "Method is required");
    let e = EndpointBuilder::default().path_params(HashMap::new()).build().err().unwrap();
    assert_eq!(e.message(), "Base URL is required");
}

#[test]
fn a_later_setting_replaces_an_earlier_one() {
    let endpoint = EndpointBuilder::new()
        .base_url("http://old")
        .base_url("http://new")
        .endpoint("/a")
        .endpoint("/b")
        .method(reqwest::Method::GET)
        .method(reqwest::Method::DELETE)
        .build()
        .ok()
        .unwrap();
    assert_eq!(endpoint.base_url(), "http://new");
    assert_eq!(endpoint.endpoint(), "/b");
    assert_eq!(*endpoint.method(), reqwest::Method::DELETE);
    let (json, params) = endpoint.into_body_and_query();
    assert_eq!(json, None);
    assert_eq!(params, None);
}

#[test]
fn escape_sequences_are_taken_out() {
    assert_eq!(ANSI_ESCAPE, r"\x1B\[[0-9;]*[mK]");
    assert_eq!(strip_ansi("\u{1b}[31mred\u{1b}[0m"), "red");
    assert_eq!(strip_ansi("\u{1b}[1;32mok\u{1b}[K done"), "ok done");
    assert_eq!(strip_ansi("plain"), "plain");
    assert_eq!(strip_ansi(""), "");
    assert_eq!(strip_ansi("\u{1b}[31"), "\u{1b}[31");
    assert_eq!(strip_ansi("[31m"), "[31m");
}

#[test]
fn a_json_error_text_is_named_as_json() {
    let report = Endpoint::failure("\u{1b}[31m{\"error\":\"bad\",\"details\":\"\\u001b[1mboom\\u001b[0m\"}\u{1b}[0m");
    assert_eq!(report.cleaned_text, "{\"error\":\"bad\",\"details\":\"\\u001b[1mboom\\u001b[0m\"}");
    assert_eq!(report.details, Some("boom".to_string()));
    assert_eq!(report.error.message(), "Request failed with JSON error text");
}

#[test]
fn a_json_error_text_without_details() {
    let report = Endpoint::failure("{\"error\":\"bad\",\"details\":5}");
    assert_eq!(report.details, None);
    assert_eq!(report.error.message(), "Request failed with JSON error text");
    let report = Endpoint::failure("[1, 2]");
    assert_eq!(report.details, None);
    assert_eq!(report.error.message(), "Request failed with JSON error text");
}

#[test]
fn a_plain_error_text_is_named_as_text() {
    let report = Endpoint::failure("\u{1b}[31mInternal Server Error\u{1b}[0m");
    assert_eq!(report.cleaned_text, "Internal Server Error");
    assert_eq!(report.details, None);
    assert_eq!(report.error.message(), "Request failed with text error");
    let report = Endpoint::failure("");
    assert_eq!(report.error.message(), "Request failed with text error");
}
