use mtls_agent::erring::HTTPError;

#[test]
fn http_error_to_string() {
    assert_eq!(HTTPError(400, "bad".to_string()).to_string(), "400, bad");
    assert_eq!(HTTPError(0, String::new()).to_string(), "0, ");
    assert_eq!(HTTPError(65535, "x, y".to_string()).to_string(), "65535, x, y");
    assert_eq!(HTTPError(1000, "m".to_string()).to_string(), "1000, m");
}

#[test]
fn http_error_into_response_keeps_a_status_code() {
    assert_eq!(HTTPError(400, "bad".to_string()).into_response(), (400, "bad".to_string()));
    assert_eq!(HTTPError(100, "a".to_string()).into_response(), (100, "a".to_string()));
    assert_eq!(HTTPError(999, "b".to_string()).into_response(), (999, "b".to_string()));
}

#[test]
fn http_error_into_response_replaces_what_is_no_status_code() {
    assert_eq!(HTTPError(99, "a".to_string()).into_response(), (500, "a".to_string()));
    assert_eq!(HTTPError(1000, "b".to_string()).into_response(), (500, "b".to_string()));
    assert_eq!(HTTPError(0, "c".to_string()).into_response(), (500, "c".to_string()));
    assert_eq!(HTTPError(65535, "d".to_string()).into_response(), (500, "d".to_string()));
}

#[test]
fn http_error_fields() {
    let e = HTTPError(404, "not here".to_string());
    assert_eq!(e.0, 404);
    assert_eq!(e.1, "not here");
    assert_eq!(e.clone(), e);
}
