use warp10::{
    batch_body, extract_header_err, handle_response, substitute_token, Client, Data, Error, Label,
    Value, Warp10Response, Warp10Serializable,
};

#[test]
fn client_host_and_port() {
    let client = Client::new("https://example.com:8080").unwrap();
    assert_eq!(client.host_and_maybe_port(), "example.com:8080");
}

#[test]
fn client_host_without_port() {
    let client = Client::new("https://example.com").unwrap();
    assert_eq!(client.host_and_maybe_port(), "example.com");
}

#[test]
fn client_without_host_falls_back_to_localhost() {
    let client = Client::new("/relative/path").unwrap();
    assert_eq!(client.host_and_maybe_port(), "localhost");
}

#[test]
fn client_derived_uris() {
    let client = Client::new("https://example.com:8080/warp").unwrap();
    assert_eq!(client.update_uri(), "https://example.com:8080/warp/api/v0/update");
    assert_eq!(client.exec_uri(), "https://example.com:8080/warp/api/v0/exec");
}

#[test]
fn client_invalid_uri() {
    let err = Client::new("http://exa mple.com").unwrap_err();
    assert!(matches!(err, Error::HttpUriError(_)));
}

#[test]
fn response_ok() {
    let result = handle_response(None, 200, "OK".to_string());
    let response = result.unwrap();
    assert_eq!(response.status(), 200);
    assert_eq!(response.payload(), "OK");
}

#[test]
fn response_api_error_with_header() {
    let mut headers = http::HeaderMap::new();
    headers.insert(
        "X-Warp10-Error-Message",
        http::HeaderValue::from_str("invalid token").unwrap(),
    );
    let err = extract_header_err(&headers);
    assert_eq!(err, Some("invalid token".to_string()));
    match handle_response(err, 403, "forbidden".to_string()) {
        Err(Error::ApiError(response, message)) => {
            assert_eq!(response.status(), 403);
            assert_eq!(response.payload(), "forbidden");
            assert_eq!(message, Some("invalid token".to_string()));
        },
        _ => panic!("expected an ApiError"),
    }
}

#[test]
fn error_header_absent() {
    let headers = http::HeaderMap::new();
    assert_eq!(extract_header_err(&headers), None);
}

#[test]
fn error_header_not_utf8() {
    let mut headers = http::HeaderMap::new();
    headers.insert(
        "X-Warp10-Error-Message",
        http::HeaderValue::from_bytes(&[0xffu8, 0xfe]).unwrap(),
    );
    assert_eq!(extract_header_err(&headers), None);
}

#[test]
fn api_error_message_text() {
    let err = Error::api_error(
        Warp10Response::new(403, "forbidden".to_string()),
        Some("invalid token".to_string()),
    );
    assert_eq!(err.message(), "Warp10 API error: status 403, forbidden, invalid token");
}

#[test]
fn error_messages_name_their_kind() {
    assert_eq!(
        Error::HttpError("bad request part".to_string()).message(),
        "Warp10 HTTP error: bad request part"
    );
    assert_eq!(
        Error::HttpBodyError("connection reset".to_string()).message(),
        "Warp10 HTTP body error: connection reset"
    );
    assert_eq!(Error::IoError("pipe closed".to_string()).message(), "Warp10 IO error: pipe closed");
    let uri_err = Client::new("http://exa mple.com").unwrap_err();
    assert!(uri_err.message().starts_with("Warp10 HTTP URI error: "));
}

#[test]
fn batch_joins_lines_in_order() {
    let first = Data::new_without_time(
        None,
        "first name".to_string(),
        vec![Label::new("l", "v")],
        Value::Int(1),
    );
    let second = Data::new_without_time(None, "second".to_string(), vec![], Value::Boolean(true));
    let body = batch_body(&vec![first.clone(), second.clone()]);
    let expected = format!("{}\n{}", first.warp10_serialize(), second.warp10_serialize());
    assert_eq!(body, expected);
    assert_eq!(body.matches('\n').count(), 1);
}

#[test]
fn batch_of_one_has_no_newline() {
    let only = Data::new_without_time(None, "n".to_string(), vec![], Value::Int(5));
    let body = batch_body(&vec![only.clone()]);
    assert_eq!(body, only.warp10_serialize());
}

#[test]
fn writer_post_request() {
    let client = Client::new("http://warp.example.com:9090").unwrap();
    let writer = client.get_writer("write-token".to_string());
    let point = Data::new_without_time(
        None,
        "speed".to_string(),
        vec![Label::new("sensor", "a1")],
        Value::Int(3),
    );
    let request = writer.post_request(&vec![point.clone()]);
    assert_eq!(request.uri, "http://warp.example.com:9090/api/v0/update");
    assert_eq!(request.body, point.warp10_serialize());
    assert_eq!(request.headers.get("content-type").unwrap(), "text/plain; charset=utf-8");
    assert_eq!(request.headers.get("host").unwrap(), "warp.example.com:9090");
    assert_eq!(request.headers.get("x-warp10-token").unwrap(), "write-token");
}

#[test]
fn invalid_credential_header_is_omitted() {
    let client = Client::new("http://warp.example.com").unwrap();
    let writer = client.get_writer("bad\ntoken".to_string());
    let request = writer.post_request(&vec![]);
    assert_eq!(request.body, "");
    assert!(request.headers.get("x-warp10-token").is_none());
    assert_eq!(request.headers.get("host").unwrap(), "warp.example.com");
}

#[test]
fn reader_get_request_substitutes_token() {
    let client = Client::new("http://warp.example.com").unwrap();
    let reader = client.get_reader("readtoken".to_string());
    let request = reader.get_request("[ $TOKEN 'gts' ] FETCH $TOKEN DROP");
    assert_eq!(request.uri, "http://warp.example.com/api/v0/exec");
    assert_eq!(request.body, "[ readtoken 'gts' ] FETCH readtoken DROP");
    assert!(!request.body.contains("$TOKEN"));
    assert_eq!(request.headers.get("x-warp10-token").unwrap(), "readtoken");
}

#[test]
fn substitution_replaces_every_occurrence() {
    let script = "$TOKEN middle $TOKEN";
    let sent = substitute_token(script, "s3cr3t");
    assert_eq!(sent, "s3cr3t middle s3cr3t");
    assert!(!sent.contains("$TOKEN"));
}

#[test]
fn substitution_keeps_partial_markers() {
    assert_eq!(substitute_token("$TOKE $token $TOKENS", "x"), "$TOKE $token xS");
    assert_eq!(substitute_token("no marker", "x"), "no marker");
}
