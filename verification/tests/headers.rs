use axum::http::header::{HeaderMap, HeaderValue};
use mtls_agent::headers::{extract_header, header_or_empty};

#[test]
fn extract_header_gives_the_text() {
    let mut hm = HeaderMap::new();
    hm.insert("x-request-id", HeaderValue::from_static("abc-123"));
    assert_eq!(extract_header(&hm, "x-request-id", || "none".to_string()), "abc-123");
}

#[test]
fn extract_header_absent_gives_the_other() {
    let hm = HeaderMap::new();
    assert_eq!(extract_header(&hm, "x-request-id", || "none".to_string()), "none");
}

#[test]
fn extract_header_matches_the_name_in_any_case() {
    let mut hm = HeaderMap::new();
    hm.insert("x-forwarded-host", HeaderValue::from_static("example.org"));
    assert_eq!(extract_header(&hm, "X-Forwarded-Host", || String::new()), "example.org");
}

#[test]
fn extract_header_takes_the_first_value() {
    let mut hm = HeaderMap::new();
    hm.append("accept", HeaderValue::from_static("text/html"));
    hm.append("accept", HeaderValue::from_static("text/plain"));
    assert_eq!(extract_header(&hm, "accept", || String::new()), "text/html");
}

#[test]
fn extract_header_value_that_is_no_text_gives_the_other() {
    let mut hm = HeaderMap::new();
    hm.insert("x-request-id", HeaderValue::from_bytes(b"caf\xe9").unwrap());
    assert_eq!(extract_header(&hm, "x-request-id", || "none".to_string()), "none");
}

#[test]
fn extract_header_keeps_spaces_and_tabs() {
    let mut hm = HeaderMap::new();
    hm.insert("x-note", HeaderValue::from_bytes(b"a b\tc").unwrap());
    assert_eq!(extract_header(&hm, "x-note", || String::new()), "a b\tc");
}

#[test]
fn extract_header_key_that_is_no_name_gives_the_other() {
    let mut hm = HeaderMap::new();
    hm.insert("host", HeaderValue::from_static("example.org"));
    assert_eq!(extract_header(&hm, "ho st", || "none".to_string()), "none");
    assert_eq!(extract_header(&hm, "", || "none".to_string()), "none");
}

#[test]
fn header_or_empty_absent_is_empty() {
    let mut hm = HeaderMap::new();
    assert_eq!(header_or_empty(&hm, "content-length"), "");
    hm.insert("content-length", HeaderValue::from_static("42"));
    assert_eq!(header_or_empty(&hm, "content-length"), "42");
}
